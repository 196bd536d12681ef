use vstd::prelude::*;

verus! {

/// The one place that owns the running backend's process handle, if any.
/// Callers keep it behind a single lock; this type decides what a start or a
/// termination does to it.
pub struct ProcessSlot<H> {
    handle: Option<H>,
}

/// What a termination hands out to be killed, and the slot's content after it.
pub open spec fn terminate_spec<H>(handle: Option<H>) -> (Option<H>, Option<H>) {
    (handle, None)
}

impl<H> ProcessSlot<H> {
    /// The handle currently held.
    pub closed spec fn handle(&self) -> Option<H> {
        self.handle
    }

    /// An empty slot: no backend started yet.
    pub fn new() -> (r: ProcessSlot<H>)
        ensures
            r.handle() is None,
    {
        ProcessSlot { handle: None }
    }

    /// Stores the handle of a freshly spawned backend, replacing any previous
    /// one, which is handed back.
    pub fn store(&mut self, h: H) -> (prev: Option<H>)
        ensures
            final(self).handle() == Some(h),
            prev == old(self).handle(),
    {
        let prev = self.handle.take();
        self.handle = Some(h);
        prev
    }

    /// Empties the slot and hands out the handle it held, which the caller
    /// kills. With no handle this changes nothing and hands out nothing.
    pub fn terminate(&mut self) -> (victim: Option<H>)
        ensures
            (victim, final(self).handle()) == terminate_spec(old(self).handle()),
    {
        self.handle.take()
    }

    /// Whether a backend handle is held.
    pub fn is_running(&self) -> (r: bool)
        ensures
            r == self.handle() is Some,
    {
        self.handle.is_some()
    }
}

/// Termination is idempotent: right after one termination a second one hands
/// out nothing to kill and leaves the slot empty.
pub proof fn lemma_terminate_idempotent<H>(handle: Option<H>)
    ensures
        terminate_spec(terminate_spec(handle).1).0 is None,
        terminate_spec(terminate_spec(handle).1).1 == terminate_spec(handle).1,
{
}

} // verus!
