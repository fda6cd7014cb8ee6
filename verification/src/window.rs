//! The windows that the window system reports, as far as rendering needs
//! them.

use crate::extent::Extent;
use std::collections::HashMap;
use vstd::prelude::*;

verus! {

broadcast use vstd::std_specs::hash::group_hash_axioms;

/// Identifies a window for as long as it lives.
pub type WindowId = u128;

/// What the renderer needs to know of a window.
#[derive(Clone, Copy, Debug, PartialEq, Eq, Structural)]
pub struct Window {
    pub id: WindowId,
    /// Width of the client area in physical pixels.
    pub physical_width: u32,
    /// Height of the client area in physical pixels.
    pub physical_height: u32,
    /// Whether the window wants its frames paced by the display's refresh.
    pub vsync: bool,
}

impl Window {
    /// The size of the client area in physical pixels.
    pub open spec fn extent(self) -> Extent {
        Extent { width: self.physical_width, height: self.physical_height }
    }

    /// The size of the client area in physical pixels.
    pub fn physical_extent(&self) -> (extent: Extent)
        ensures
            extent == self.extent(),
    {
        Extent { width: self.physical_width, height: self.physical_height }
    }
}

/// Every window is filed under its own identifier.
pub open spec fn filed_by_id(windows: Map<WindowId, Window>) -> bool {
    forall|id: WindowId| #[trigger] windows.contains_key(id) ==> windows[id].id == id
}

/// The windows that exist at the moment, by their identifiers.
pub struct Windows {
    windows: HashMap<WindowId, Window>,
}

impl View for Windows {
    type V = Map<WindowId, Window>;

    closed spec fn view(&self) -> Map<WindowId, Window> {
        self.windows@
    }
}

impl Windows {
    /// The window with the given identifier, where there is one.
    pub open spec fn lookup(self, id: WindowId) -> Option<Window> {
        if self@.contains_key(id) {
            Some(self@[id])
        } else {
            None
        }
    }

    /// Every window is filed under its own identifier.
    #[verifier::type_invariant]
    pub open spec fn wf(&self) -> bool {
        filed_by_id(self@)
    }

    /// No windows.
    pub fn new() -> (windows: Windows)
        ensures
            windows@ == Map::<WindowId, Window>::empty(),
            windows.wf(),
    {
        Windows { windows: HashMap::new() }
    }

    /// Records a window, in place of any earlier record of the same
    /// identifier.
    pub fn add(&mut self, window: Window)
        ensures
            final(self)@ == old(self)@.insert(window.id, window),
            final(self).wf(),
    {
        proof {
            use_type_invariant(&*self);
        }
        let mut windows: HashMap<WindowId, Window> = HashMap::new();
        std::mem::swap(&mut windows, &mut self.windows);
        windows.insert(window.id, window);
        self.windows = windows;
    }

    /// The window with the given identifier, or `None` when it does not
    /// exist (any more).
    pub fn get(&self, id: WindowId) -> (found: Option<&Window>)
        ensures
            found == (match self.lookup(id) {
                Some(window) => Some(&window),
                None => None,
            }),
            found matches Some(window) ==> window.id == id,
            self.wf(),
    {
        proof {
            use_type_invariant(self);
        }
        self.windows.get(&id)
    }
}

} // verus!
