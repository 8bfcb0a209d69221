//! Single-instance coordination: the system-wide instance lock, the launch
//! decision, and the focus request on a secondary launch.
//!
//! At most one process instance exists system-wide. On process start an
//! instance attempts to acquire the lock; the one that succeeds is the
//! primary and proceeds with startup, while a later attempt finds the lock
//! held, hands its invocation arguments and working directory to the primary,
//! and terminates immediately. On detecting such a secondary launch, the
//! primary requests that its application surface come to the foreground and
//! receive input focus.

use vstd::prelude::*;

verus! {

/// The system-wide instance lock: at most one instance holds it at a time.
pub struct InstanceLock {
    /// The identifier of the holding instance, if any.
    pub holder: Option<u64>,
}

/// Whether an acquisition attempt on `lock` succeeds: exactly when no
/// instance holds it.
pub open spec fn acquire_succeeds(lock: InstanceLock) -> bool {
    lock.holder is None
}

/// The lock after an instance attempts to acquire it: a free lock is taken by
/// that instance, a held lock is unchanged.
pub open spec fn acquire_transition(lock: InstanceLock, instance: u64) -> InstanceLock {
    if acquire_succeeds(lock) {
        InstanceLock { holder: Some(instance) }
    } else {
        lock
    }
}

impl InstanceLock {
    /// A lock that no instance holds.
    pub fn new() -> (lock: InstanceLock)
        ensures
            lock.holder is None,
    {
        InstanceLock { holder: None }
    }

    /// One instance's attempt to become the primary: succeeds exactly when no
    /// instance holds the lock, and a held lock is left unchanged.
    pub fn try_acquire(&mut self, instance: u64) -> (acquired: bool)
        ensures
            acquired == acquire_succeeds(*old(self)),
            *final(self) == acquire_transition(*old(self), instance),
    {
        match self.holder {
            None => {
                self.holder = Some(instance);
                true
            },
            Some(_) => false,
        }
    }
}

/// What a process does after its launch attempt.
pub enum LaunchOutcome {
    /// This process acquired the lock: it is the primary instance and
    /// proceeds with normal startup.
    Primary,
    /// Another instance holds the lock: this process hands its invocation
    /// arguments and working directory to the primary and terminates
    /// immediately, without completing startup.
    Yield { args: Vec<String>, cwd: String },
}

/// A launch attempt: try to become the primary instance; on failure, yield to
/// the primary, forwarding this invocation's arguments and working directory
/// unchanged.
pub fn attempt_launch(
    lock: &mut InstanceLock,
    instance: u64,
    args: Vec<String>,
    cwd: String,
) -> (outcome: LaunchOutcome)
    ensures
        *final(lock) == acquire_transition(*old(lock), instance),
        acquire_succeeds(*old(lock)) <==> outcome is Primary,
        !acquire_succeeds(*old(lock)) ==> (outcome matches LaunchOutcome::Yield {
            args: a,
            cwd: c,
        } && a == args && c == cwd),
{
    if lock.try_acquire(instance) {
        LaunchOutcome::Primary
    } else {
        LaunchOutcome::Yield { args, cwd }
    }
}

/// The primary instance's application surface, as the guard sees it: a
/// singleton created once at startup, holding the count of foreground-focus
/// requests made of it so far.
pub struct Surface {
    /// How many foreground-focus requests this surface has received.
    pub focus_requests: u64,
}

impl Surface {
    /// A freshly created surface: no focus request yet.
    pub fn new() -> (s: Surface)
        ensures
            s.focus_requests == 0,
    {
        Surface { focus_requests: 0 }
    }

    /// The guard's reaction to a detected secondary launch: request that this
    /// surface come to the foreground and receive input focus. The arguments
    /// and working directory the secondary instance forwarded are not read by
    /// this core. The guard is registered only after the surface exists, so a
    /// caller always holds one.
    pub fn on_secondary_launch(&mut self, _args: &Vec<String>, _cwd: &str)
        requires
            old(self).focus_requests < u64::MAX,
        ensures
            final(self).focus_requests == old(self).focus_requests + 1,
    {
        self.focus_requests = self.focus_requests + 1;
    }
}

/// Law: of two launch attempts on a free lock, in either order, exactly one —
/// the first — acquires it and remains the holder; the second finds the lock
/// held and therefore yields.
pub proof fn lemma_single_instance(lock: InstanceLock, first: u64, second: u64)
    requires
        lock.holder is None,
    ensures
        acquire_succeeds(lock),
        !acquire_succeeds(acquire_transition(lock, first)),
        acquire_transition(acquire_transition(lock, first), second).holder == Some(first),
{
}

} // verus!
