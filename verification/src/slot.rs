//! The single shared slot that owns the live sidecar handle.
//!
//! The supervisor stores the handle of the spawned backend here and empties
//! the slot again on shutdown, killing whatever it finds.  The caller is
//! expected to guard the slot with a mutual-exclusion lock, never to hold the
//! guard across a suspension point, and to send the kill signal to whatever
//! `take` hands back; the slot itself only accounts for ownership, which is
//! what makes a second termination a no-op.

use vstd::prelude::*;

verus! {

/// An exclusively owned slot holding at most one live handle.
pub struct HandleSlot<T> {
    inner: Option<T>,
}

/// The state of a slot right after a handle has been stored in it.
pub open spec fn after_store<T>(h: T) -> Option<T> {
    Some(h)
}

/// What taking from a slot in state `s` yields: the occupant handed to the
/// caller, and the empty follow-up state.
pub open spec fn after_take<T>(s: Option<T>) -> (Option<T>, Option<T>) {
    (s, None)
}

impl<T> HandleSlot<T> {
    /// The occupant, if any.
    pub closed spec fn contents(&self) -> Option<T> {
        self.inner
    }

    /// A slot with no occupant.
    pub fn empty() -> (s: Self)
        ensures
            s.contents() is None,
    {
        HandleSlot { inner: None }
    }

    /// Replace the occupant with `h`.  The displaced handle, if any, is
    /// dropped, not killed.
    pub fn store(&mut self, h: T)
        ensures
            final(self).contents() == after_store(h),
    {
        self.inner = Some(h);
    }

    /// Empty the slot and hand the occupant, if any, to the caller, who kills
    /// it.  On an already empty slot this yields nothing, so no second kill
    /// signal is ever sent.
    pub fn take(&mut self) -> (h: Option<T>)
        ensures
            h == after_take(old(self).contents()).0,
            final(self).contents() == after_take(old(self).contents()).1,
    {
        self.inner.take()
    }

    /// Whether a live handle is currently held.
    pub fn is_occupied(&self) -> (b: bool)
        ensures
            b == (self.contents() is Some),
    {
        self.inner.is_some()
    }
}

/// Law: storing a handle and then taking yields that very handle and leaves
/// the slot empty; taking again finds the slot empty and yields nothing, so
/// termination is idempotent and the second call performs no kill.
pub proof fn lemma_store_take_idempotent<T>(h: T)
    ensures
        after_take(after_store(h)).0 == Some(h),
        after_take(after_store(h)).1 == None::<T>,
        after_take(after_take(after_store(h)).1).0 == None::<T>,
        after_take(after_take(after_store(h)).1).1 == None::<T>,
{
}

} // verus!
