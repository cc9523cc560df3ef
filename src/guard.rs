use vstd::prelude::*;

verus! {

/// Where a process-wide native library stands for one adapter instance.
#[derive(Clone, Copy, Debug, PartialEq, Eq, Structural)]
pub enum LibraryState {
    Uninitialized,
    Initialized,
    Terminated,
}

/// How many times the native init call has been made in this state.
pub open spec fn init_calls(s: LibraryState) -> nat {
    if s == LibraryState::Uninitialized {
        0
    } else {
        1
    }
}

/// How many times the native teardown call has been made in this state.
pub open spec fn teardown_calls(s: LibraryState) -> nat {
    if s == LibraryState::Terminated {
        1
    } else {
        0
    }
}

/// The state after an adapter asks to acquire the library.
pub open spec fn after_acquire(s: LibraryState) -> LibraryState {
    if s == LibraryState::Uninitialized {
        LibraryState::Initialized
    } else {
        s
    }
}

/// The state after an adapter releases the library.
pub open spec fn after_release(s: LibraryState) -> LibraryState {
    if s == LibraryState::Initialized {
        LibraryState::Terminated
    } else {
        s
    }
}

/// One lifecycle event of an adapter instance.
#[derive(Clone, Copy, Debug, PartialEq, Eq, Structural)]
pub enum LifecycleEvent {
    Acquire,
    Release,
}

/// The state reached from a fresh guard through `events`, in order.
pub open spec fn run_events(events: Seq<LifecycleEvent>) -> LibraryState
    decreases events.len(),
{
    if events.len() == 0 {
        LibraryState::Uninitialized
    } else {
        let s = run_events(events.drop_last());
        if events.last() == LifecycleEvent::Acquire {
            after_acquire(s)
        } else {
            after_release(s)
        }
    }
}

/// Pairs an adapter's native init with exactly one teardown: the caller makes
/// the native call only when a method answers `true`.
pub struct LibraryGuard {
    state: LibraryState,
}

impl LibraryGuard {
    pub closed spec fn state(&self) -> LibraryState {
        self.state
    }

    /// A guard for an instance that has not touched the library yet.
    pub fn new() -> (r: Self)
        ensures
            r.state() == LibraryState::Uninitialized,
    {
        LibraryGuard { state: LibraryState::Uninitialized }
    }

    /// Whether the caller must now make the native init call.
    pub fn acquire(&mut self) -> (init: bool)
        ensures
            init == (old(self).state() == LibraryState::Uninitialized),
            final(self).state() == after_acquire(old(self).state()),
    {
        if self.state == LibraryState::Uninitialized {
            self.state = LibraryState::Initialized;
            true
        } else {
            false
        }
    }

    /// Whether the caller must now make the native teardown call.
    pub fn release(&mut self) -> (teardown: bool)
        ensures
            teardown == (old(self).state() == LibraryState::Initialized),
            final(self).state() == after_release(old(self).state()),
    {
        if self.state == LibraryState::Initialized {
            self.state = LibraryState::Terminated;
            true
        } else {
            false
        }
    }

    /// Whether the native library is up for this instance.
    pub fn is_initialized(&self) -> (r: bool)
        ensures
            r == (self.state() == LibraryState::Initialized),
    {
        self.state == LibraryState::Initialized
    }
}

/// Whatever an instance's lifecycle events are, the native init is made at most
/// once and the teardown never more often than the init.
pub proof fn lemma_calls_bounded(events: Seq<LifecycleEvent>)
    ensures
        init_calls(run_events(events)) <= 1,
        teardown_calls(run_events(events)) <= init_calls(run_events(events)),
    decreases events.len(),
{
    if events.len() > 0 {
        lemma_calls_bounded(events.drop_last());
    }
}

/// Once an instance has been acquired and then released, the init has been made
/// exactly once and the teardown exactly once, whatever came before, between or
/// after.
pub proof fn lemma_calls_paired(pre: Seq<LifecycleEvent>, mid: Seq<LifecycleEvent>, post: Seq<LifecycleEvent>)
    ensures
        ({
            let evs = pre.push(LifecycleEvent::Acquire) + mid.push(LifecycleEvent::Release) + post;
            init_calls(run_events(evs)) == 1 && teardown_calls(run_events(evs)) == 1
        }),
    decreases post.len(),
{
    let a = pre.push(LifecycleEvent::Acquire);
    lemma_acquired_stays_up(a, mid);
    let b = a + mid.push(LifecycleEvent::Release);
    assert(b.drop_last() =~= a + mid);
    assert(run_events(b) == LibraryState::Terminated);
    if post.len() == 0 {
        assert(b + post =~= b);
    } else {
        lemma_calls_paired(pre, mid, post.drop_last());
        assert((b + post).drop_last() =~= b + post.drop_last());
    }
}

/// After an acquire the library stays initialized or terminated.
proof fn lemma_acquired_stays_up(a: Seq<LifecycleEvent>, mid: Seq<LifecycleEvent>)
    requires
        a.len() > 0,
        a.last() == LifecycleEvent::Acquire,
    ensures
        run_events(a + mid) != LibraryState::Uninitialized,
    decreases mid.len(),
{
    if mid.len() == 0 {
        assert(a + mid =~= a);
    } else {
        lemma_acquired_stays_up(a, mid.drop_last());
        assert((a + mid).drop_last() =~= a + mid.drop_last());
    }
}

} // verus!
