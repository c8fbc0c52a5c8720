//! The window view of the general controller.
use vstd::prelude::*;

verus! {

/// A window view with an optional listener of type `L`.
pub struct EGuiView<L> {
    listener: Option<L>,
}

impl<L> EGuiView<L> {
    /// The listener, if one is set.
    pub closed spec fn listener(&self) -> Option<L> {
        self.listener
    }

    /// A view without a listener.
    pub fn new() -> (r: Self)
        ensures
            r.listener() is None,
    {
        EGuiView { listener: None }
    }

    /// Sets the listener, replacing any earlier one.
    pub fn set_listener(&mut self, listener: L)
        ensures
            final(self).listener() == Some(listener),
    {
        self.listener = Some(listener);
    }
}

} // verus!
