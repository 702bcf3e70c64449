//! The discipline of the process-wide singleton universe.
//!
//! The singleton itself is process state behind a lock, and the runtime
//! layer owns both: a lazily initialized, mutex-guarded universe, plus one
//! lazily acquired guard per thread, held for the rest of that thread's
//! life. Cross-thread mutual exclusion is the lock's to enforce — and it is
//! only best effort against code that reaches the native global context by
//! another path. What can be stated over plain values is the two state
//! machines this discipline follows, and those are pinned down here: the
//! per-process lifecycle of the singleton (built lazily, exactly once,
//! never torn down) and the per-thread guard acquisition (entered at most
//! once, never reverted).

use vstd::prelude::*;

verus! {

/// The per-process lifecycle of the singleton universe.
#[derive(Clone, Copy, Debug, PartialEq, Eq, Structural)]
pub enum SingletonState {
    Uninitialized,
    Initializing,
    Ready,
}

impl SingletonState {
    /// The position of a state in the one-way lifecycle order.
    pub open spec fn rank(self) -> int {
        match self {
            SingletonState::Uninitialized => 0,
            SingletonState::Initializing => 1,
            SingletonState::Ready => 2,
        }
    }

    /// The steps the lifecycle allows: initialization begins once and
    /// finishes once; `Ready` has no outgoing step.
    pub open spec fn can_step(self, next: SingletonState) -> bool {
        ||| (self is Uninitialized && next is Initializing)
        ||| (self is Initializing && next is Ready)
    }

    /// The first access on any thread starts the one initialization.
    pub fn begin_initialization(&mut self)
        requires
            *old(self) is Uninitialized,
        ensures
            *final(self) is Initializing,
            old(self).can_step(*final(self)),
    {
        *self = SingletonState::Initializing;
    }

    /// The winning initializer publishes the singleton.
    pub fn finish_initialization(&mut self)
        requires
            *old(self) is Initializing,
        ensures
            *final(self) is Ready,
            old(self).can_step(*final(self)),
    {
        *self = SingletonState::Ready;
    }
}

/// LAW: the singleton lifecycle moves strictly forward and never leaves
/// `Ready`, so initialization happens exactly once per process and the
/// singleton is never torn down.
pub proof fn lemma_singleton_lifecycle_one_way(s1: SingletonState, s2: SingletonState)
    requires
        s1.can_step(s2),
    ensures
        s2.rank() == s1.rank() + 1,
        !(s1 is Ready),
{
}

/// The per-thread relationship to the global lock.
#[derive(Clone, Copy, Debug, PartialEq, Eq, Structural)]
pub enum ThreadGuardState {
    NoGuardHeld,
    AcquiringLock,
    HoldingLock,
}

impl ThreadGuardState {
    /// The position of a state in the one-way acquisition order.
    pub open spec fn rank(self) -> int {
        match self {
            ThreadGuardState::NoGuardHeld => 0,
            ThreadGuardState::AcquiringLock => 1,
            ThreadGuardState::HoldingLock => 2,
        }
    }

    /// The steps a thread's guard state allows: request the lock once,
    /// obtain it once, and keep it — `HoldingLock` has no outgoing step,
    /// which is what makes repeat access on one thread re-lock-free.
    pub open spec fn can_step(self, next: ThreadGuardState) -> bool {
        ||| (self is NoGuardHeld && next is AcquiringLock)
        ||| (self is AcquiringLock && next is HoldingLock)
    }

    /// The thread's first access requests the global lock (this is where a
    /// thread may block while another holds the lock).
    pub fn request_lock(&mut self)
        requires
            *old(self) is NoGuardHeld,
        ensures
            *final(self) is AcquiringLock,
            old(self).can_step(*final(self)),
    {
        *self = ThreadGuardState::AcquiringLock;
    }

    /// The lock is granted; the thread holds its guard from here on.
    pub fn lock_granted(&mut self)
        requires
            *old(self) is AcquiringLock,
        ensures
            *final(self) is HoldingLock,
            old(self).can_step(*final(self)),
    {
        *self = ThreadGuardState::HoldingLock;
    }
}

/// LAW: a thread's guard state moves strictly forward and never leaves
/// `HoldingLock`: a thread acquires the global guard at most once and never
/// releases it back.
pub proof fn lemma_guard_acquired_once(s1: ThreadGuardState, s2: ThreadGuardState)
    requires
        s1.can_step(s2),
    ensures
        s2.rank() == s1.rank() + 1,
        !(s1 is HoldingLock),
{
}

} // verus!
