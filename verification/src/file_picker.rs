//! The guard of the threaded file dialog: at most one dialog runs at a time, and a
//! dialog that closes without a selection is reported as an error.
//!
//! Opening the native dialog on a worker thread is the embedding application's part;
//! it asks [`DialogGuard::begin`] before it starts one and hands the dialog's answer to
//! [`DialogGuard::finish`].
use vstd::prelude::*;

verus! {

/// Why a file dialog produced no path.
#[derive(Clone, Copy, Debug, PartialEq, Eq, Structural)]
pub enum PickError {
    /// A dialog was already open.
    AlreadyRunning,
    /// The dialog was closed without a selection.
    NothingSelected,
}

impl PickError {
    /// The error's text.
    pub fn message(&self) -> (r: &'static str)
        ensures
            *self == PickError::AlreadyRunning ==> r@ == "File picker already running"@,
            *self == PickError::NothingSelected ==> r@ == "No file(s)/path(s) selected"@,
    {
        match self {
            PickError::AlreadyRunning => "File picker already running",
            PickError::NothingSelected => "No file(s)/path(s) selected",
        }
    }
}

/// Whether a file dialog is open.
pub struct DialogGuard {
    running: bool,
}

impl DialogGuard {
    /// A dialog is open.
    pub closed spec fn running(&self) -> bool {
        self.running
    }

    /// A guard with no dialog open.
    pub fn new() -> (r: Self)
        ensures
            !r.running(),
    {
        DialogGuard { running: false }
    }

    /// Whether a dialog is open.
    pub fn is_running(&self) -> (r: bool)
        ensures
            r == self.running(),
    {
        self.running
    }

    /// Asks to open a dialog: refused while one is open, otherwise the guard is marked
    /// as running.
    pub fn begin(&mut self) -> (r: Result<(), PickError>)
        ensures
            old(self).running() ==> r == Err::<(), PickError>(PickError::AlreadyRunning),
            !old(self).running() ==> r is Ok,
            final(self).running(),
    {
        if self.running {
            return Err(PickError::AlreadyRunning);
        }
        self.running = true;
        Ok(())
    }

    /// The dialog closed with `picked`: the guard is free again, and a missing
    /// selection becomes an error.
    pub fn finish<R>(&mut self, picked: Option<R>) -> (r: Result<R, PickError>)
        ensures
            !final(self).running(),
            r == match picked {
                Some(v) => Ok::<R, PickError>(v),
                None => Err(PickError::NothingSelected),
            },
    {
        self.running = false;
        match picked {
            Some(v) => Ok(v),
            None => Err(PickError::NothingSelected),
        }
    }
}

} // verus!
