use vstd::prelude::*;

verus! {

/// The single slot that at most one hook session holds at a time, whatever
/// categories that session asked for.
pub struct SessionSlot {
    occupied: bool,
}

impl SessionSlot {
    /// Whether a session holds the slot.
    pub closed spec fn occupied(&self) -> bool {
        self.occupied
    }

    /// A free slot.
    pub fn new() -> (r: SessionSlot)
        ensures
            !r.occupied(),
    {
        SessionSlot { occupied: false }
    }

    /// Takes the slot if it is free. Returns whether it was taken; a slot
    /// that is already held is left as it is.
    pub fn try_acquire(&mut self) -> (r: bool)
        ensures
            r == !old(self).occupied(),
            final(self).occupied(),
    {
        if self.occupied {
            false
        } else {
            self.occupied = true;
            true
        }
    }

    /// Frees the slot, whoever held it.
    pub fn release(&mut self)
        ensures
            !final(self).occupied(),
    {
        self.occupied = false;
    }

    /// Whether a session holds the slot.
    pub fn is_occupied(&self) -> (r: bool)
        ensures
            r == self.occupied(),
    {
        self.occupied
    }
}

} // verus!
