//! The frame driver: once per tick it reconciles every renderer whose
//! window was resized and runs a frame on every renderer.

use crate::dispatcher::{has_renderer, Dispatcher};
use crate::extent::Extent;
use crate::gpu::GpuCommand;
use crate::renderer::{RendererState, RendererStatus};
use crate::window::{Window, WindowId, Windows};
use std::collections::HashSet;
use vstd::prelude::*;

verus! {

broadcast use vstd::std_specs::hash::group_hash_axioms;

/// What the frame driver remembers between ticks: the windows that were
/// resized and whose renderers have not been reconciled yet.
pub struct RenderSystemState {
    resized_window_ids: HashSet<WindowId>,
}

impl View for RenderSystemState {
    type V = Set<WindowId>;

    closed spec fn view(&self) -> Set<WindowId> {
        self.resized_window_ids@
    }
}

/// What one renderer is to do in one tick.
#[derive(Debug, PartialEq, Eq)]
pub struct Frame {
    pub window_id: WindowId,
    pub commands: Vec<GpuCommand>,
}

/// Whether the renderer of the window `id` is to be reconciled in a tick
/// that starts with `pending` and receives `events`. Only whether the window
/// is named counts, not how often.
pub open spec fn resize_due(pending: Set<WindowId>, events: Seq<WindowId>, id: WindowId) -> bool {
    pending.contains(id) || events.contains(id)
}

/// What the window system owes the driver: every window that was resized
/// and has a renderer exists.
pub open spec fn resized_windows_exist(
    pending: Set<WindowId>,
    events: Seq<WindowId>,
    renderers: Seq<RendererState>,
    windows: Map<WindowId, Window>,
) -> bool {
    forall|i: int|
        0 <= i < renderers.len() && resize_due(pending, events, (#[trigger] renderers[i]).window_id)
            ==> windows.contains_key(renderers[i].window_id)
}

/// The size to reconcile a renderer with in this tick: the size that its
/// window has now, where the window was resized since the tick before, and
/// also where the renderer is stale and its window still exists. `None`
/// where the renderer is left as it is.
pub open spec fn resize_target(
    pending: Set<WindowId>,
    events: Seq<WindowId>,
    windows: Map<WindowId, Window>,
    renderer: RendererState,
) -> Option<Extent> {
    let id = renderer.window_id;
    if (resize_due(pending, events, id) || renderer.status is Stale) && windows.contains_key(id) {
        Some(windows[id].extent())
    } else {
        None
    }
}

/// `frame` and `after` are what one tick makes of the renderer `before`.
pub open spec fn is_tick_of(
    before: RendererState,
    resized_to: Option<Extent>,
    after: RendererState,
    frame: Frame,
) -> bool {
    &&& after == before.ticked(resized_to, after.pipeline.sampling_uniform.seed)
    &&& frame.window_id == before.window_id
    &&& frame.commands@ == before.tick_commands(resized_to, after.pipeline.sampling_uniform.seed)
}

impl RenderSystemState {
    /// A driver state with no resize pending.
    pub fn new() -> (state: RenderSystemState)
        ensures
            state@ == Set::<WindowId>::empty(),
    {
        RenderSystemState { resized_window_ids: HashSet::new() }
    }

    /// Records the windows named by resize events as resized.
    pub fn note_resized(&mut self, window_resized_events: &Vec<WindowId>)
        ensures
            forall|id: WindowId|
                final(self)@.contains(id) <==> resize_due(old(self)@, window_resized_events@, id),
    {
        let mut i: usize = 0;
        while i < window_resized_events.len()
            invariant
                i <= window_resized_events.len(),
                forall|id: WindowId|
                    self@.contains(id) <==> resize_due(
                        old(self)@,
                        window_resized_events@.take(i as int),
                        id,
                    ),
            decreases window_resized_events.len() - i,
        {
            let ghost earlier = window_resized_events@.take(i as int);
            let ghost now = window_resized_events@.take(i as int + 1);
            let ghost before = self@;
            let event: WindowId = window_resized_events[i];
            self.resized_window_ids.insert(event);
            proof {
                assert(self@ == before.insert(event));
                assert(now =~= earlier.push(event));
                assert forall|id: WindowId|
                    self@.contains(id) <==> resize_due(old(self)@, now, id) by {
                    assert(before.contains(id) <==> resize_due(old(self)@, earlier, id));
                    if earlier.contains(id) {
                        let j = choose|j: int| 0 <= j < earlier.len() && earlier[j] == id;
                        assert(now[j] == id);
                    }
                    if id == event {
                        assert(now[i as int] == id);
                    }
                    if now.contains(id) {
                        let j = choose|j: int| 0 <= j < now.len() && now[j] == id;
                        if j < i {
                            assert(earlier[j] == id);
                        }
                    }
                }
            }
            i += 1;
        }
        assert(window_resized_events@.take(i as int) =~= window_resized_events@);
    }

    /// Whether a resize of the window `id` is pending.
    pub fn is_pending(&self, id: WindowId) -> (yes: bool)
        ensures
            yes == self@.contains(id),
    {
        self.resized_window_ids.contains(&id)
    }

    /// Takes the window `id` out of the pending resizes and tells whether it
    /// was among them.
    pub fn take(&mut self, id: WindowId) -> (taken: bool)
        ensures
            taken == old(self)@.contains(id),
            final(self)@ == old(self)@.remove(id),
    {
        self.resized_window_ids.remove(&id)
    }
}

impl Default for RenderSystemState {
    fn default() -> (state: RenderSystemState)
        ensures
            state@ == Set::<WindowId>::empty(),
    {
        RenderSystemState::new()
    }
}

/// Looks for a renderer whose window was resized and does not exist: the
/// case that `render_system` leaves to its caller.
pub fn find_missing_window(
    state: &RenderSystemState,
    window_resized_events: &Vec<WindowId>,
    windows: &Windows,
    dispatcher: &Dispatcher,
) -> (missing: Option<WindowId>)
    ensures
        missing is None <==> resized_windows_exist(
            state@,
            window_resized_events@,
            dispatcher@,
            windows@,
        ),
        missing matches Some(id) ==> {
            &&& has_renderer(dispatcher@, id)
            &&& resize_due(state@, window_resized_events@, id)
            &&& !windows@.contains_key(id)
        },
{
    let count: usize = dispatcher.len();
    let mut i: usize = 0;
    while i < count
        invariant
            i <= count,
            count == dispatcher@.len(),
            forall|j: int|
                0 <= j < i && resize_due(
                    state@,
                    window_resized_events@,
                    (#[trigger] dispatcher@[j]).window_id,
                ) ==> windows@.contains_key(dispatcher@[j].window_id),
        decreases count - i,
    {
        let id: WindowId = dispatcher.renderer(i).window_id();
        if (state.is_pending(id) || named(window_resized_events, id)) && windows.get(id).is_none() {
            assert(dispatcher@[i as int].window_id == id);
            return Some(id);
        }
        i += 1;
    }
    None
}

/// Whether one of the events names the window `id`.
fn named(events: &Vec<WindowId>, id: WindowId) -> (yes: bool)
    ensures
        yes == events@.contains(id),
{
    let mut i: usize = 0;
    while i < events.len()
        invariant
            i <= events.len(),
            forall|j: int| 0 <= j < i ==> events@[j] != id,
        decreases events.len() - i,
    {
        if events[i] == id {
            return true;
        }
        i += 1;
    }
    false
}

/// Runs one tick of the frame driver. The resize events are folded into
/// the pending resizes first, so that a window named many times counts
/// once. Then each renderer, in the order of registration, is reconciled
/// with its window where a resize is pending for it or where it is stale,
/// and runs one frame. The result holds, for each renderer in that order,
/// the commands to carry out on its device.
pub fn render_system(
    state: &mut RenderSystemState,
    window_resized_events: &Vec<WindowId>,
    windows: &Windows,
    dispatcher: &mut Dispatcher,
) -> (frames: Vec<Frame>)
    requires
        resized_windows_exist(
            old(state)@,
            window_resized_events@,
            old(dispatcher)@,
            windows@,
        ),
    ensures
        final(dispatcher).wf(),
        final(dispatcher)@.len() == old(dispatcher)@.len(),
        frames@.len() == old(dispatcher)@.len(),
        forall|i: int|
            0 <= i < frames@.len() ==> is_tick_of(
                old(dispatcher)@[i],
                resize_target(
                    old(state)@,
                    window_resized_events@,
                    windows@,
                    old(dispatcher)@[i],
                ),
                final(dispatcher)@[i],
                #[trigger] frames@[i],
            ),
        forall|id: WindowId|
            final(state)@.contains(id) <==> resize_due(old(state)@, window_resized_events@, id)
                && !has_renderer(old(dispatcher)@, id),
{
    state.note_resized(window_resized_events);
    let count: usize = dispatcher.len();
    let mut frames: Vec<Frame> = Vec::new();
    let mut i: usize = 0;
    while i < count
        invariant
            i <= count,
            count == old(dispatcher)@.len(),
            dispatcher@.len() == count,
            dispatcher.wf(),
            old(dispatcher).wf(),
            frames@.len() == i,
            resized_windows_exist(
                old(state)@,
                window_resized_events@,
                old(dispatcher)@,
                windows@,
            ),
            forall|j: int| i <= j < count ==> #[trigger] dispatcher@[j] == old(dispatcher)@[j],
            forall|j: int|
                0 <= j < i ==> is_tick_of(
                    old(dispatcher)@[j],
                    resize_target(
                        old(state)@,
                        window_resized_events@,
                        windows@,
                        old(dispatcher)@[j],
                    ),
                    dispatcher@[j],
                    #[trigger] frames@[j],
                ),
            forall|id: WindowId|
                state@.contains(id) <==> resize_due(old(state)@, window_resized_events@, id)
                    && !has_renderer(old(dispatcher)@.take(i as int), id),
        decreases count - i,
    {
        let ghost before_frames = frames@;
        let ghost before_dispatcher = dispatcher@;
        let ghost done = old(dispatcher)@.take(i as int);
        let ghost now = old(dispatcher)@.take(i as int + 1);
        let id: WindowId = dispatcher.renderer(i).window_id();
        proof {
            assert(old(dispatcher)@[i as int].window_id == id);
            if has_renderer(done, id) {
                let j = choose|j: int| 0 <= j < done.len() && (#[trigger] done[j]).window_id == id;
                assert(old(dispatcher)@[j].window_id == id);
                assert(old(dispatcher)@[j].window_id != old(dispatcher)@[i as int].window_id);
            }
            assert(state@.contains(id) <==> resize_due(old(state)@, window_resized_events@, id));
        }
        let stale: bool = match dispatcher.renderer(i).status() {
            RendererStatus::Stale => true,
            RendererStatus::Stable => false,
        };
        let due: bool = state.take(id);
        let resized: Option<&Window> = if due || stale {
            windows.get(id)
        } else {
            None
        };
        let commands = dispatcher.drive(i, resized);
        frames.push(Frame { window_id: id, commands });
        proof {
            assert forall|j: int| 0 <= j < i + 1 implies is_tick_of(
                old(dispatcher)@[j],
                resize_target(
                    old(state)@,
                    window_resized_events@,
                    windows@,
                    old(dispatcher)@[j],
                ),
                dispatcher@[j],
                #[trigger] frames@[j],
            ) by {
                if j < i {
                    assert(frames@[j] == before_frames[j]);
                    assert(dispatcher@[j] == before_dispatcher[j]);
                }
            }
            assert forall|j: int| i + 1 <= j < count implies #[trigger] dispatcher@[j] == old(
                dispatcher,
            )@[j] by {
                assert(dispatcher@[j] == before_dispatcher[j]);
            }
            assert forall|other: WindowId|
                state@.contains(other) <==> resize_due(
                    old(state)@,
                    window_resized_events@,
                    other,
                ) && !has_renderer(now, other) by {
                if has_renderer(now, other) {
                    let j = choose|j: int|
                        0 <= j < now.len() && (#[trigger] now[j]).window_id == other;
                    if j < i {
                        assert(done[j].window_id == other);
                    }
                }
                if has_renderer(done, other) {
                    let j = choose|j: int|
                        0 <= j < done.len() && (#[trigger] done[j]).window_id == other;
                    assert(now[j].window_id == other);
                }
                if other == id {
                    assert(now[i as int].window_id == other);
                }
            }
        }
        i += 1;
    }
    assert(old(dispatcher)@.take(i as int) =~= old(dispatcher)@);
    frames
}

/// Resize events coalesce: events that name windows already named in the
/// same tick change nothing, neither which renderers are reconciled nor
/// with which size.
pub proof fn lemma_resize_events_coalesce(
    pending: Set<WindowId>,
    events: Seq<WindowId>,
    repeated: Seq<WindowId>,
    windows: Map<WindowId, Window>,
    id: WindowId,
)
    requires
        forall|k: int|
            0 <= k < repeated.len() ==> resize_due(pending, events, #[trigger] repeated[k]),
    ensures
        resize_due(pending, events + repeated, id) == resize_due(pending, events, id),
        forall|renderer: RendererState|
            renderer.window_id == id ==> #[trigger] resize_target(
                pending,
                events + repeated,
                windows,
                renderer,
            ) == resize_target(pending, events, windows, renderer),
{
    let all = events + repeated;
    if events.contains(id) {
        let j = choose|j: int| 0 <= j < events.len() && events[j] == id;
        assert(all[j] == id);
    }
    if all.contains(id) {
        let j = choose|j: int| 0 <= j < all.len() && all[j] == id;
        if j < events.len() {
            assert(events[j] == id);
        } else {
            assert(repeated[j - events.len()] == id);
        }
    }
}

} // verus!
