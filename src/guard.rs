use vstd::prelude::*;

verus! {

/// Per-thread state of the hook: the reentrancy flag and the operating
/// system's identifier of the thread, once it has been looked up.
pub struct ThreadState {
    held: bool,
    tid: Option<i64>,
}

impl ThreadState {
    /// Whether a recursion guard is currently held on this thread.
    pub closed spec fn spec_held(&self) -> bool {
        self.held
    }

    /// The cached thread identifier, if it was looked up already.
    pub closed spec fn spec_tid(&self) -> Option<i64> {
        self.tid
    }

    /// The state every thread starts in: free, no identifier cached.
    pub fn new() -> (r: ThreadState)
        ensures
            !r.spec_held(),
            r.spec_tid() is None,
    {
        ThreadState { held: false, tid: None }
    }

    pub fn is_held(&self) -> (r: bool)
        ensures
            r == self.spec_held(),
    {
        self.held
    }

    pub fn cached_thread_id(&self) -> (r: Option<i64>)
        ensures
            r == self.spec_tid(),
    {
        self.tid
    }

    /// Caches the identifier that the operating system gave this thread and
    /// returns the identifier that stands from now on: the one cached before,
    /// if there was one.
    pub fn remember_thread_id(&mut self, os_tid: i64) -> (r: i64)
        ensures
            r == match old(self).spec_tid() {
                Some(t) => t,
                None => os_tid,
            },
            final(self).spec_tid() == Some(r),
            final(self).spec_held() == old(self).spec_held(),
    {
        match self.tid {
            Some(t) => t,
            None => {
                self.tid = Some(os_tid);
                os_tid
            },
        }
    }
}

/// Proof that the current thread holds the reentrancy lock; handing it back
/// through `release` frees the lock.
pub struct RecursionGuard {
    _held: (),
}

impl RecursionGuard {
    /// Takes the thread's reentrancy lock: `None` if it is held already (the
    /// state is then left as it is), otherwise a guard, the lock now held.
    pub fn new(state: &mut ThreadState) -> (r: Option<RecursionGuard>)
        ensures
            r is Some <==> !old(state).spec_held(),
            final(state).spec_held(),
            final(state).spec_tid() == old(state).spec_tid(),
    {
        if state.held {
            None
        } else {
            state.held = true;
            Some(RecursionGuard { _held: () })
        }
    }

    /// Gives the lock back: the thread is free again.
    pub fn release(self, state: &mut ThreadState)
        ensures
            !final(state).spec_held(),
            final(state).spec_tid() == old(state).spec_tid(),
    {
        state.held = false;
    }
}

} // verus!
