//! Crash-guard bookkeeping: the single-slot, non-reentrant resource that is
//! armed around each guarded call into third-party plugin code.
//!
//! The platform fault interception itself (signal handlers and the
//! non-local jump on Unix, structured exception handling elsewhere) is
//! unsafe process-global machinery and lives outside the library; it
//! reports a fault as the `Crashed` outcome. Verified code cannot fault, so
//! running a guarded closure from here always completes with its value —
//! which is exactly the guard's contract for a call that returns normally.

use vstd::prelude::*;

verus! {

/// Result of running code with crash protection.
pub enum CrashGuardResult<T> {
    /// Code completed successfully.
    Completed(T),
    /// A crash was caught (signal or exception code included).
    Crashed(i32),
}

impl<T> CrashGuardResult<T> {
    pub fn is_crashed(&self) -> (r: bool)
        ensures
            r == (self is Crashed),
    {
        match self {
            CrashGuardResult::Completed(_) => false,
            CrashGuardResult::Crashed(_) => true,
        }
    }
}

/// The process-wide jump-target slot, made explicit: exactly one guarded
/// call may be in flight at a time, and arming is refused while armed.
pub struct GuardSlot {
    armed: bool,
}

impl GuardSlot {
    pub closed spec fn armed_spec(&self) -> bool {
        self.armed
    }

    pub fn new() -> (r: GuardSlot)
        ensures
            !r.armed_spec(),
    {
        GuardSlot { armed: false }
    }

    pub fn is_armed(&self) -> (r: bool)
        ensures
            r == self.armed_spec(),
    {
        self.armed
    }

    /// Arm the slot for one guarded call. Not reentrant: a slot that is
    /// already armed refuses, and the caller must not enter the guarded
    /// call.
    pub fn arm(&mut self) -> (r: bool)
        ensures
            r == !old(self).armed_spec(),
            final(self).armed_spec() == true,
    {
        let was_armed = self.armed;
        self.armed = true;
        !was_armed
    }

    /// Disarm after the guarded call has settled, successfully or not.
    pub fn disarm(&mut self)
        ensures
            !final(self).armed_spec(),
    {
        self.armed = false;
    }

    /// Execute a closure under the guard. A closure that returns normally
    /// completes with the closure's value; the slot is armed only for the
    /// duration of the call and is free again afterwards.
    pub fn run_guarded<T, F: FnOnce() -> T>(&mut self, f: F) -> (r: CrashGuardResult<T>)
        requires
            !old(self).armed_spec(),
            f.requires(()),
        ensures
            !final(self).armed_spec(),
            r matches CrashGuardResult::Completed(v) && f.ensures((), v),
    {
        self.armed = true;
        let v = f();
        self.armed = false;
        CrashGuardResult::Completed(v)
    }
}

} // verus!
