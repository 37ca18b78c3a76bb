use vstd::prelude::*;
use crate::guard::{RecursionGuard, ThreadState};

verus! {

/// How an invocation of the hook starts.
pub enum HookStart {
    /// Recording is off: nothing is done.
    Disabled,
    /// The hook is already running on this thread: the call is absorbed.
    Reentered,
    /// The call goes ahead, holding the thread's reentrancy lock.
    Run(RecursionGuard),
}

/// Which way an invocation starts, given whether recording is on and whether
/// the thread's lock is held.
pub open spec fn start_kind(enabled: bool, held: bool) -> int {
    if !enabled {
        0
    } else if held {
        1
    } else {
        2
    }
}

impl HookStart {
    /// The kind of this start: 0 disabled, 1 reentered, 2 run.
    pub open spec fn kind(self) -> int {
        match self {
            HookStart::Disabled => 0,
            HookStart::Reentered => 1,
            HookStart::Run(_) => 2,
        }
    }
}

/// Whether the thread's lock is held after an invocation started.
pub open spec fn held_after_start(enabled: bool, held: bool) -> bool {
    held || start_kind(enabled, held) == 2
}

/// The first decisions of the hook: nothing happens when recording is off,
/// the call is absorbed when the hook already runs on this thread, and
/// otherwise the thread's lock is taken.
pub fn begin_hook(enabled: bool, state: &mut ThreadState) -> (r: HookStart)
    ensures
        r.kind() == start_kind(enabled, old(state).spec_held()),
        final(state).spec_held() == held_after_start(enabled, old(state).spec_held()),
        final(state).spec_tid() == old(state).spec_tid(),
{
    if !enabled {
        return HookStart::Disabled;
    }
    match RecursionGuard::new(state) {
        Some(g) => HookStart::Run(g),
        None => HookStart::Reentered,
    }
}

/// With recording off, the hook leaves the thread's state as it found it, on
/// every invocation.
pub proof fn lemma_disabled_is_inert(held: bool)
    ensures
        start_kind(false, held) == 0,
        held_after_start(false, held) == held,
{
}

/// A reentrant invocation on a thread where the hook runs is absorbed. From
/// a free thread (`s0`), the outer invocation runs and takes the lock (`s1`);
/// a nested invocation is refused and the lock stays held (`s2`); once the
/// outer guard is released (`s3`), the next invocation runs again.
pub proof fn lemma_reentry_absorbed(s0: ThreadState, s1: ThreadState, s2: ThreadState, s3: ThreadState)
    requires
        !s0.spec_held(),
        s1.spec_held() == held_after_start(true, s0.spec_held()),
        s2.spec_held() == held_after_start(true, s1.spec_held()),
        !s3.spec_held(),
    ensures
        start_kind(true, s0.spec_held()) == 2,
        s1.spec_held(),
        start_kind(true, s1.spec_held()) == 1,
        s2.spec_held(),
        start_kind(true, s3.spec_held()) == 2,
{
}

} // verus!
