//! The traits of the model-view-controller skeleton.
use vstd::prelude::*;

verus! {

/// A model of the application state.
pub trait Model {
    fn update(&mut self);
}

/// Receives the events of type `E` that a view reports.
pub trait ViewListener<E> {
    fn handle_event(&mut self, event: E);
}

} // verus!
