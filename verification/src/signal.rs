//! The cooperative shutdown flag shared by the two pump directions.
//!
//! The flag starts unset, can only be raised (sets are idempotent), and is
//! polled by the inbound pump at each bounded-wait boundary.

use vstd::prelude::*;

verus! {

/// A single boolean flag used to ask a polling read loop to stop.
///
/// At runtime the front end shares one of these per relay session between
/// both pump directions; the verified session model tracks its value.
pub struct ShutdownSignal {
    flag: bool,
}

impl View for ShutdownSignal {
    type V = bool;

    closed spec fn view(&self) -> bool {
        self.flag
    }
}

impl ShutdownSignal {
    /// A fresh signal is unset.
    pub fn new() -> (s: Self)
        ensures
            !s@,
    {
        ShutdownSignal { flag: false }
    }

    /// Raise the flag. Setting an already-set flag changes nothing, so
    /// repeated sets are idempotent.
    pub fn set(&mut self)
        ensures
            final(self)@,
    {
        self.flag = true;
    }

    /// Read the flag.
    pub fn is_set(&self) -> (r: bool)
        ensures
            r == self@,
    {
        self.flag
    }
}

} // verus!
