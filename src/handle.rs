//! Exclusive ownership of one native component reference.
use vstd::prelude::*;

verus! {

/// What tearing down a handle that holds `raw` does: the handle becomes
/// null, and the reference is handed out for release unless it was null.
pub open spec fn teardown_step(raw: usize) -> (usize, Option<usize>) {
    if raw == 0 {
        (0, None)
    } else {
        (0, Some(raw))
    }
}

/// Owner of one native component reference, kept as its address; zero
/// means "not yet opened or already torn down".
///
/// The type is move-only: it cannot be copied, so a reference has one owner.
pub struct Handle {
    raw: usize,
}

impl View for Handle {
    type V = usize;

    closed spec fn view(&self) -> usize {
        self.raw
    }
}

impl Default for Handle {
    fn default() -> (r: Handle)
        ensures
            r@ == 0,
    {
        Handle::new()
    }
}

impl Handle {
    /// An empty handle.
    pub fn new() -> (r: Handle)
        ensures
            r@ == 0,
    {
        Handle { raw: 0 }
    }

    /// The slot that the component's open call fills with its reference.
    pub fn as_mut_ptr(&mut self) -> (r: &mut usize)
        ensures
            *r == old(self)@,
            final(self)@ == *final(r),
    {
        &mut self.raw
    }

    /// The reference held, zero when none.
    pub fn as_ptr(&self) -> (r: usize)
        ensures
            r == self@,
    {
        self.raw
    }

    pub fn is_null(&self) -> (r: bool)
        ensures
            r == (self@ == 0),
    {
        self.raw == 0
    }

    /// Tears the handle down: hands out the reference for release the first
    /// time and leaves the handle null, so that a second teardown does nothing.
    pub fn release(&mut self) -> (r: Option<usize>)
        ensures
            (final(self)@, r) == teardown_step(old(self)@),
    {
        if self.raw == 0 {
            None
        } else {
            let raw = self.raw;
            self.raw = 0;
            Some(raw)
        }
    }
}

/// Teardown releases a reference at most once: after one teardown the
/// handle is null, and a second teardown hands nothing out.
pub proof fn lemma_teardown_idempotent(raw: usize)
    ensures
        teardown_step(raw).0 == 0,
        raw != 0 ==> teardown_step(raw).1 == Some(raw),
        raw == 0 ==> teardown_step(raw).1 is None,
        teardown_step(teardown_step(raw).0).1 is None,
{
}

} // verus!
