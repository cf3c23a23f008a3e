use vstd::prelude::*;
use crate::error::EnvKind;

verus! {

/// The native call that a change of the reservation count asks for.
#[derive(Debug, Clone, Copy, PartialEq, Eq, Structural)]
pub enum EnvCall {
    /// Nothing: the subsystem stays as it is.
    Keep,
    /// Start the subsystem (the count leaves zero).
    Startup,
    /// Tear the subsystem down (the count returns to zero).
    Teardown,
}

/// The call that taking a reservation asks for, with `count` reservations held.
pub open spec fn acquire_call(count: nat) -> EnvCall {
    if count == 0 { EnvCall::Startup } else { EnvCall::Keep }
}

/// The call that giving a reservation back asks for, with `count` reservations held.
pub open spec fn release_call(count: nat) -> EnvCall {
    if count == 1 { EnvCall::Teardown } else { EnvCall::Keep }
}

/// The count after giving a reservation back: never below zero.
pub open spec fn released_count(count: nat) -> nat {
    if count == 0 { 0 } else { (count - 1) as nat }
}

/// The process-wide state of the socket subsystem: how many reservations
/// are held. The subsystem is active exactly when the count is positive.
/// Callers that share it across threads serialise access to it.
pub struct Environment {
    count: u64,
}

impl Environment {
    /// The number of reservations held.
    pub closed spec fn spec_count(&self) -> nat {
        self.count as nat
    }

    /// Whether the subsystem is active.
    pub open spec fn spec_active(&self) -> bool {
        self.spec_count() > 0
    }

    /// A state with no reservation and the subsystem inactive.
    pub fn new() -> (r: Environment)
        ensures
            r.spec_count() == 0,
    {
        Environment { count: 0 }
    }

    pub fn count(&self) -> (r: u64)
        ensures
            r as nat == self.spec_count(),
    {
        self.count
    }

    pub fn is_active(&self) -> (r: bool)
        ensures
            r == self.spec_active(),
    {
        self.count > 0
    }

    /// The call that must succeed before a reservation can be taken.
    pub fn acquire_call(&self) -> (r: EnvCall)
        ensures
            r == acquire_call(self.spec_count()),
    {
        if self.count == 0 {
            EnvCall::Startup
        } else {
            EnvCall::Keep
        }
    }

    /// Takes a reservation. `startup` is the outcome of the call that
    /// `acquire_call` asked for (`Ok(())` where it asked for none). A failed
    /// startup takes no reservation, so a later acquire tries startup again.
    pub fn acquire(&mut self, startup: Result<(), i32>) -> (r: Result<(), EnvKind>)
        requires
            old(self).spec_count() < u64::MAX,
        ensures
            old(self).spec_count() > 0 ==> r is Ok,
            old(self).spec_count() == 0 ==> r == match startup {
                Ok(()) => Ok(()),
                Err(code) => Err(EnvKind::StartupFailed(code)),
            },
            r is Ok ==> final(self).spec_count() == old(self).spec_count() + 1,
            r is Err ==> final(self).spec_count() == old(self).spec_count(),
    {
        if self.count > 0 {
            self.count = self.count + 1;
            return Ok(());
        }
        match startup {
            Ok(()) => {
                self.count = 1;
                Ok(())
            },
            Err(code) => Err(EnvKind::StartupFailed(code)),
        }
    }

    /// Gives a reservation back and returns the call that this asks for.
    /// With no reservation held nothing changes, so a reservation is never
    /// given back twice.
    pub fn release(&mut self) -> (r: EnvCall)
        ensures
            final(self).spec_count() == released_count(old(self).spec_count()),
            r == release_call(old(self).spec_count()),
    {
        if self.count == 0 {
            EnvCall::Keep
        } else {
            let was = self.count;
            self.count = self.count - 1;
            if was == 1 {
                EnvCall::Teardown
            } else {
                EnvCall::Keep
            }
        }
    }
}

/// Reads the outcome of a teardown call. The count was already updated by
/// `release`: it stays authoritative whatever the call returned.
pub fn teardown_result(outcome: Result<(), i32>) -> (r: Result<(), EnvKind>)
    ensures
        r == match outcome {
            Ok(()) => Ok(()),
            Err(code) => Err(EnvKind::TeardownFailed(code)),
        },
{
    match outcome {
        Ok(()) => Ok(()),
        Err(code) => Err(EnvKind::TeardownFailed(code)),
    }
}

} // verus!
