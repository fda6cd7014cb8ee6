//! The dispatcher: decides which new windows get a renderer, and keeps the
//! renderers it made, one per window, in the order in which they were made.

use crate::error::RendererError;
use crate::gpu::GpuCommand;
use crate::renderer::{resized_extent, Renderer, RendererState};
use crate::surface::{preferred_format, preferred_present_mode, SurfaceCapabilities};
use crate::uniform::NANOS_PER_SECOND;
use crate::window::{filed_by_id, Window, WindowId, Windows};
use vstd::prelude::*;

verus! {

/// Whether one of the renderers belongs to the window `id`.
pub open spec fn has_renderer(renderers: Seq<RendererState>, id: WindowId) -> bool {
    exists|i: int| 0 <= i < renderers.len() && (#[trigger] renderers[i]).window_id == id
}

/// No two of the renderers belong to the same window.
pub open spec fn one_renderer_per_window(renderers: Seq<RendererState>) -> bool {
    forall|i: int, j: int|
        0 <= i < j < renderers.len() ==> (#[trigger] renderers[i]).window_id != (
        #[trigger] renderers[j]).window_id
}

/// Whether the window `id` is to get a renderer: it exists and has none.
pub open spec fn wants_renderer(
    renderers: Seq<RendererState>,
    windows: Map<WindowId, Window>,
    id: WindowId,
) -> bool {
    windows.contains_key(id) && !has_renderer(renderers, id)
}

/// The windows for which a batch of window-created events asks for a
/// renderer, in the order of the events: each window that still exists and
/// has no renderer yet, once, however often it is named.
pub open spec fn spawn_requests(
    renderers: Seq<RendererState>,
    windows: Map<WindowId, Window>,
    events: Seq<WindowId>,
) -> Seq<Window>
    decreases events.len(),
{
    if events.len() == 0 {
        seq![]
    } else {
        let earlier = events.drop_last();
        let id = events.last();
        let before = spawn_requests(renderers, windows, earlier);
        if wants_renderer(renderers, windows, id) && !earlier.contains(id) {
            before.push(windows[id])
        } else {
            before
        }
    }
}

/// Whether a request for the window `id` is among `requests`.
pub open spec fn is_requested(requests: Seq<Window>, id: WindowId) -> bool {
    exists|k: int| 0 <= k < requests.len() && (#[trigger] requests[k]).id == id
}

/// What `spawn_requests` selects: every request is for a window that an
/// event names, that exists and that has no renderer; no window is requested
/// twice; and no such window is left out.
pub proof fn lemma_spawn_requests_are_new_and_distinct(
    renderers: Seq<RendererState>,
    windows: Map<WindowId, Window>,
    events: Seq<WindowId>,
)
    requires
        filed_by_id(windows),
    ensures
        spawn_requests(renderers, windows, events).len() <= events.len(),
        forall|k: int|
            0 <= k < spawn_requests(renderers, windows, events).len() ==> {
                let request = #[trigger] spawn_requests(renderers, windows, events)[k];
                &&& events.contains(request.id)
                &&& wants_renderer(renderers, windows, request.id)
                &&& windows[request.id] == request
            },
        forall|i: int, j: int|
            0 <= i < j < spawn_requests(renderers, windows, events).len() ==> (
            #[trigger] spawn_requests(renderers, windows, events)[i]).id != (
            #[trigger] spawn_requests(renderers, windows, events)[j]).id,
        forall|id: WindowId|
            events.contains(id) && wants_renderer(renderers, windows, id) ==> is_requested(
                spawn_requests(renderers, windows, events),
                id,
            ),
    decreases events.len(),
{
    let requests = spawn_requests(renderers, windows, events);
    if events.len() > 0 {
        let earlier = events.drop_last();
        let last = events.last();
        let before = spawn_requests(renderers, windows, earlier);
        lemma_spawn_requests_are_new_and_distinct(renderers, windows, earlier);
        assert forall|id: WindowId| earlier.contains(id) implies events.contains(id) by {
            let j = choose|j: int| 0 <= j < earlier.len() && earlier[j] == id;
            assert(events[j] == id);
        }
        assert(events[events.len() - 1] == last);
        assert forall|k: int| 0 <= k < requests.len() implies ({
            let request = #[trigger] requests[k];
            &&& events.contains(request.id)
            &&& wants_renderer(renderers, windows, request.id)
            &&& windows[request.id] == request
        }) by {
            if k < before.len() {
                assert(requests[k] == before[k]);
            }
        }
        assert forall|i: int, j: int| 0 <= i < j < requests.len() implies (
        #[trigger] requests[i]).id != (#[trigger] requests[j]).id by {
            assert(requests[i] == before[i]);
            if j < before.len() {
                assert(requests[j] == before[j]);
            } else {
                assert(earlier.contains(before[i].id));
            }
        }
        assert forall|id: WindowId|
            events.contains(id) && wants_renderer(renderers, windows, id) implies is_requested(
            requests,
            id,
        ) by {
            if earlier.contains(id) {
                let k = choose|k: int| 0 <= k < before.len() && (#[trigger] before[k]).id == id;
                assert(requests[k].id == id);
            } else {
                let j = choose|j: int| 0 <= j < events.len() && events[j] == id;
                if j < earlier.len() {
                    assert(earlier[j] == id);
                }
                assert(id == last);
                assert(requests[before.len() as int].id == id);
            }
        }
    }
}

/// The live renderers, in the order of their registration.
pub struct Dispatcher {
    renderers: Vec<Renderer>,
}

impl View for Dispatcher {
    type V = Seq<RendererState>;

    closed spec fn view(&self) -> Seq<RendererState> {
        Seq::new(self.renderers@.len(), |i: int| self.renderers@[i]@)
    }
}

impl Dispatcher {
    /// Every renderer is consistent, and no window has two.
    #[verifier::type_invariant]
    pub open spec fn wf(&self) -> bool {
        &&& one_renderer_per_window(self@)
        &&& forall|i: int| 0 <= i < self@.len() ==> (#[trigger] self@[i]).wf()
    }

    /// A dispatcher without renderers.
    pub fn new() -> (dispatcher: Dispatcher)
        ensures
            dispatcher@ == Seq::<RendererState>::empty(),
            dispatcher.wf(),
    {
        let dispatcher = Dispatcher { renderers: Vec::new() };
        assert(dispatcher@ =~= Seq::<RendererState>::empty());
        dispatcher
    }

    /// The number of renderers.
    pub fn len(&self) -> (len: usize)
        ensures
            len == self@.len(),
            self.wf(),
    {
        proof {
            use_type_invariant(self);
        }
        self.renderers.len()
    }

    /// The renderer that was registered as number `index`.
    pub fn renderer(&self, index: usize) -> (renderer: &Renderer)
        requires
            index < self@.len(),
        ensures
            renderer@ == self@[index as int],
    {
        &self.renderers[index]
    }

    /// Position of the renderer of the window `id`.
    pub fn find(&self, id: WindowId) -> (found: Option<usize>)
        ensures
            found is Some <==> has_renderer(self@, id),
            found matches Some(index) ==> index < self@.len() && self@[index as int].window_id
                == id,
    {
        let mut i: usize = 0;
        while i < self.renderers.len()
            invariant
                i <= self.renderers.len(),
                self@.len() == self.renderers.len(),
                forall|j: int| 0 <= j < i ==> (#[trigger] self@[j]).window_id != id,
            decreases self.renderers.len() - i,
        {
            if self.renderers[i].window_id() == id {
                return Some(i);
            }
            i += 1;
        }
        None
    }

    /// Makes the renderer of `window` from what its surface supports and
    /// registers it behind the renderers made before. A window that has a
    /// renderer gets no second one.
    pub fn new_renderer(&mut self, window: &Window, capabilities: &SurfaceCapabilities) -> (made:
        Result<Vec<GpuCommand>, RendererError>)
        ensures
            final(self).wf(),
            made is Ok <==> !has_renderer(old(self)@, window.id) && capabilities.formats@.len() > 0
                && capabilities.present_modes@.len() > 0 && window.extent().is_drawable(),
            made matches Err(error) ==> {
                &&& final(self)@ == old(self)@
                &&& error == (if has_renderer(old(self)@, window.id) {
                    RendererError::DuplicateWindow
                } else {
                    Renderer::refusal(*window, *capabilities)
                })
            },
            made matches Ok(commands) ==> {
                &&& final(self)@.len() == old(self)@.len() + 1
                &&& final(self)@ == old(self)@.push(final(self)@.last())
                &&& final(self)@.last() == RendererState::initial(
                    *window,
                    preferred_format(capabilities.formats@).unwrap(),
                    preferred_present_mode(capabilities.present_modes@, window.vsync).unwrap(),
                    final(self)@.last().pipeline.sampling_uniform.seed,
                )
                &&& final(self)@.last().pipeline.sampling_uniform.seed < NANOS_PER_SECOND
                &&& commands@ == final(self)@.last().setup_commands()
            },
    {
        proof {
            use_type_invariant(&*self);
        }
        if self.find(window.id).is_some() {
            return Err(RendererError::DuplicateWindow);
        }
        match Renderer::new(window, capabilities) {
            Err(error) => Err(error),
            Ok((renderer, commands)) => {
                let ghost made = renderer@;
                let mut renderers: Vec<Renderer> = Vec::new();
                std::mem::swap(&mut renderers, &mut self.renderers);
                renderers.push(renderer);
                proof {
                    let after = Seq::new(renderers@.len(), |i: int| renderers@[i]@);
                    assert(after =~= old(self)@.push(made));
                    assert forall|i: int, j: int| 0 <= i < j < after.len() implies (
                    #[trigger] after[i]).window_id != (#[trigger] after[j]).window_id by {
                        assert(after[i] == old(self)@[i]);
                        if j < old(self)@.len() {
                            assert(after[j] == old(self)@[j]);
                        }
                    }
                    assert forall|i: int| 0 <= i < after.len() implies (
                    #[trigger] after[i]).wf() by {
                        if i < old(self)@.len() {
                            assert(after[i] == old(self)@[i]);
                        }
                    }
                }
                self.renderers = renderers;
                assert(self@ =~= old(self)@.push(made));
                Ok(commands)
            },
        }
    }

    /// Advances the renderer number `index` by one tick. Where its window
    /// was resized since the tick before, `resized` is the window as it is
    /// now, and the renderer is reconciled with it first; then the frame
    /// runs. The seed of the frame depends on the clock, so the contract
    /// speaks of whatever seed the renderer's record ends up with.
    pub fn drive(&mut self, index: usize, resized: Option<&Window>) -> (commands: Vec<GpuCommand>)
        requires
            index < old(self)@.len(),
        ensures
            final(self).wf(),
            final(self)@.len() == old(self)@.len(),
            forall|j: int|
                0 <= j < old(self)@.len() && j != index ==> #[trigger] final(self)@[j] == old(
                    self,
                )@[j],
            final(self)@[index as int] == old(self)@[index as int].ticked(
                resized_extent(resized),
                final(self)@[index as int].pipeline.sampling_uniform.seed,
            ),
            commands@ == old(self)@[index as int].tick_commands(
                resized_extent(resized),
                final(self)@[index as int].pipeline.sampling_uniform.seed,
            ),
    {
        proof {
            use_type_invariant(&*self);
        }
        let mut renderers: Vec<Renderer> = Vec::new();
        std::mem::swap(&mut renderers, &mut self.renderers);
        let ghost before = renderers@;
        assert(before[index as int]@ == old(self)@[index as int]);
        let commands = renderers[index].tick(resized);
        proof {
            let after = Seq::new(renderers@.len(), |i: int| renderers@[i]@);
            assert forall|i: int| 0 <= i < after.len() implies (#[trigger] after[i]).wf()
                && after[i].window_id == old(self)@[i].window_id by {
                if i != index {
                    assert(renderers@[i] == before[i]);
                    assert(after[i] == old(self)@[i]);
                }
            }
            assert forall|i: int, j: int| 0 <= i < j < after.len() implies (
            #[trigger] after[i]).window_id != (#[trigger] after[j]).window_id by {
                assert(old(self)@[i].window_id != old(self)@[j].window_id);
            }
        }
        self.renderers = renderers;
        commands
    }
}

/// Decides for which of the windows named by window-created events a
/// renderer is to be made: those that still exist and have no renderer, each
/// once, in the order of the events. An event for a window that is gone is
/// dropped. The caller negotiates a device for each window returned and
/// hands it to `Dispatcher::new_renderer`.
pub fn dispatcher_system(
    dispatcher: &Dispatcher,
    window_created_events: &Vec<WindowId>,
    windows: &Windows,
) -> (requests: Vec<Window>)
    ensures
        requests@ == spawn_requests(dispatcher@, windows@, window_created_events@),
        forall|k: int|
            0 <= k < requests@.len() ==> {
                &&& window_created_events@.contains((#[trigger] requests@[k]).id)
                &&& windows.lookup(requests@[k].id) == Some(requests@[k])
                &&& !has_renderer(dispatcher@, requests@[k].id)
            },
        forall|i: int, j: int|
            0 <= i < j < requests@.len() ==> (#[trigger] requests@[i]).id != (
            #[trigger] requests@[j]).id,
{
    proof {
        use_type_invariant(windows);
        lemma_spawn_requests_are_new_and_distinct(dispatcher@, windows@, window_created_events@);
    }
    let mut requests: Vec<Window> = Vec::new();
    let mut i: usize = 0;
    while i < window_created_events.len()
        invariant
            i <= window_created_events.len(),
            requests@ == spawn_requests(
                dispatcher@,
                windows@,
                window_created_events@.take(i as int),
            ),
            forall|k: int|
                0 <= k < requests@.len() ==> window_created_events@.take(i as int).contains(
                    (#[trigger] requests@[k]).id,
                ),
            forall|j: int|
                0 <= j < i && wants_renderer(dispatcher@, windows@, window_created_events@[j])
                    ==> is_requested(requests@, #[trigger] window_created_events@[j]),
        decreases window_created_events.len() - i,
    {
        let id: WindowId = window_created_events[i];
        let ghost earlier = window_created_events@.take(i as int);
        let ghost now = window_created_events@.take(i as int + 1);
        let ghost before = requests@;
        proof {
            assert(now.drop_last() =~= earlier);
            assert(now.last() == id);
            if earlier.contains(id) {
                let j = choose|j: int| 0 <= j < earlier.len() && earlier[j] == id;
                assert(window_created_events@[j] == id);
            }
            if is_requested(before, id) {
                let k = choose|k: int| 0 <= k < before.len() && (#[trigger] before[k]).id == id;
                assert(earlier.contains(before[k].id));
            }
        }
        match windows.get(id) {
            Some(window) => {
                if dispatcher.find(id).is_none() && !requested(&requests, id) {
                    requests.push(*window);
                    assert(requests@[before.len() as int].id == id);
                }
            },
            None => {},
        }
        proof {
            assert forall|k: int| 0 <= k < requests@.len() implies now.contains(
                (#[trigger] requests@[k]).id,
            ) by {
                if k < before.len() {
                    let w = before[k];
                    assert(requests@[k] == w);
                    assert(earlier.contains(w.id));
                    let j = choose|j: int| 0 <= j < earlier.len() && earlier[j] == w.id;
                    assert(now[j] == w.id);
                } else {
                    assert(now[i as int] == id);
                }
            }
            assert forall|j: int|
                0 <= j < i + 1 && wants_renderer(
                    dispatcher@,
                    windows@,
                    window_created_events@[j],
                ) implies is_requested(requests@, #[trigger] window_created_events@[j]) by {
                let wanted = window_created_events@[j];
                if is_requested(before, wanted) {
                    let k = choose|k: int|
                        0 <= k < before.len() && (#[trigger] before[k]).id == wanted;
                    assert(requests@[k].id == wanted);
                } else {
                    assert(j == i);
                    assert(requests@[before.len() as int].id == wanted);
                }
            }
        }
        i += 1;
    }
    assert(window_created_events@.take(i as int) =~= window_created_events@);
    requests
}

/// Whether a request for the window `id` is among `requests`.
fn requested(requests: &Vec<Window>, id: WindowId) -> (yes: bool)
    ensures
        yes <==> is_requested(requests@, id),
{
    let mut k: usize = 0;
    while k < requests.len()
        invariant
            k <= requests.len(),
            forall|j: int| 0 <= j < k ==> (#[trigger] requests@[j]).id != id,
        decreases requests.len() - k,
    {
        if requests[k].id == id {
            return true;
        }
        k += 1;
    }
    false
}

} // verus!
