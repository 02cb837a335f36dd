//! The shared-state registry: an explicit container standing for the host's
//! per-type shared state. One registry holds at most one value of its type;
//! it is registered once and retrievable later, and its absence before
//! registration is observable and distinct from an error.

use vstd::prelude::*;

verus! {

/// The shared-state slot for one type: empty until a value is registered,
/// then holding that value for the rest of the host's lifetime.
pub struct StateRegistry<T> {
    slot: Option<T>,
}

impl<T> View for StateRegistry<T> {
    type V = Option<T>;

    closed spec fn view(&self) -> Option<T> {
        self.slot
    }
}

impl<T> StateRegistry<T> {
    /// A registry with nothing registered yet.
    pub fn new() -> (r: Self)
        ensures
            r@ is None,
    {
        StateRegistry { slot: None }
    }

    /// Registers a value, once: an empty registry takes the value and reports
    /// success; a registry that already holds one is left untouched and
    /// reports failure.
    pub fn manage(&mut self, value: T) -> (r: bool)
        ensures
            old(self)@ is None ==> r && final(self)@ == Some(value),
            old(self)@ is Some ==> !r && final(self)@ == old(self)@,
    {
        if self.slot.is_none() {
            self.slot = Some(value);
            true
        } else {
            false
        }
    }

    /// Looks the registered value up: the value if registration happened,
    /// and nothing otherwise.
    pub fn try_state(&self) -> (r: Option<&T>)
        ensures
            match r {
                Some(v) => self@ == Some(*v),
                None => self@ is None,
            },
    {
        self.slot.as_ref()
    }
}

} // verus!
