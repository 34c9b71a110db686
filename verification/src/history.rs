//! Histories: what holds of the guard after any sequence of calls.
//!
//! A history is a list of calls, admitted or refused. A refused call leaves
//! the record as it was, so the record after a history is the record after
//! its admitted calls.

use vstd::prelude::*;
use crate::error::ContractError;
use crate::event::Event;
use crate::storage::{InitializableStorage, LOCKED_VERSION};

verus! {

/// One call that may change the record.
pub enum Operation {
    /// The first initialization.
    Initializer,
    /// The initialization of the given version.
    Reinitializer(u64),
    /// The lock.
    DisableInitializers,
}

impl InitializableStorage {
    /// The record after one call.
    pub open spec fn after(self, op: Operation) -> Self {
        match op {
            Operation::Initializer => self.after_initializer(),
            Operation::Reinitializer(version) => self.after_reinitializer(version),
            Operation::DisableInitializers => self.after_disable(),
        }
    }

    /// What one call publishes.
    pub open spec fn events_of(self, op: Operation) -> Seq<Event> {
        match op {
            Operation::Initializer => self.initializer_events(),
            Operation::Reinitializer(version) => self.reinitializer_events(version),
            Operation::DisableInitializers => self.disable_events(),
        }
    }

    /// The record after the calls of `ops`, made in order.
    pub open spec fn after_all(self, ops: Seq<Operation>) -> Self
        decreases ops.len(),
    {
        if ops.len() == 0 {
            self
        } else {
            self.after_all(ops.drop_last()).after(ops.last())
        }
    }

    /// What the calls of `ops`, made in order, publish.
    pub open spec fn events_of_all(self, ops: Seq<Operation>) -> Seq<Event>
        decreases ops.len(),
    {
        if ops.len() == 0 {
            Seq::empty()
        } else {
            let earlier = ops.drop_last();
            self.events_of_all(earlier) + self.after_all(earlier).events_of(ops.last())
        }
    }
}

/// The version never goes down, whatever is called.
pub proof fn version_never_decreases(s: InitializableStorage, ops: Seq<Operation>)
    ensures
        s.after_all(ops).initialized >= s.initialized,
    decreases ops.len(),
{
    if ops.len() > 0 {
        version_never_decreases(s, ops.drop_last());
    }
}

/// No initialization outlasts the call that began it: a guard in which none
/// is in progress stays so whatever is called, and between calls the check
/// for an initialization in progress fails with `NotInitializing`.
pub proof fn no_initialization_outlasts_its_call(s: InitializableStorage, ops: Seq<Operation>)
    requires
        !s.initializing,
    ensures
        !s.after_all(ops).initializing,
        s.after_all(ops).initializing_check() == Err::<(), _>(ContractError::NotInitializing),
    decreases ops.len(),
{
    if ops.len() > 0 {
        no_initialization_outlasts_its_call(s, ops.drop_last());
    }
}

/// The first initialization runs once. It is admitted on a fresh guard, and
/// wherever it is admitted it succeeds, brings the guard to version 1 with
/// no initialization in progress, and publishes one notice. From then on,
/// whatever is called, a further attempt fails with `InvalidInitialization`,
/// changes nothing and publishes nothing.
pub proof fn initializer_runs_once(s: InitializableStorage, ops: Seq<Operation>)
    requires
        s.admits_initializer(),
    ensures
        InitializableStorage::fresh().admits_initializer(),
        s.initializer_result() == Ok::<_, ContractError>(()),
        s.after_initializer() == (InitializableStorage { initialized: 1, initializing: false }),
        s.initializer_events() == seq![Event::initial()],
        ({
            let later = s.after_initializer().after_all(ops);
            &&& later.initializer_result() == Err::<(), _>(ContractError::InvalidInitialization)
            &&& later.after_initializer() == later
            &&& later.initializer_events() == Seq::<Event>::empty()
        }),
{
    version_never_decreases(s.after_initializer(), ops);
    no_initialization_outlasts_its_call(s.after_initializer(), ops);
}

/// A guard that rests, with no initialization in progress, at version 1 or
/// above never admits the first initialization again, whatever is called.
pub proof fn initialized_guard_refuses_initializer(s: InitializableStorage, ops: Seq<Operation>)
    requires
        s.initialized >= 1,
        !s.initializing,
    ensures
        s.after_all(ops).initializer_result() == Err::<(), _>(
            ContractError::InvalidInitialization,
        ),
{
    version_never_decreases(s, ops);
    no_initialization_outlasts_its_call(s, ops);
}

/// A version that has been reached or passed is never admitted again,
/// whatever has been called in between: the attempt fails with
/// `InvalidInitialization`, changes nothing and publishes nothing.
pub proof fn passed_version_stays_refused(s: InitializableStorage, ops: Seq<Operation>, version: u64)
    requires
        version <= s.initialized,
    ensures
        ({
            let later = s.after_all(ops);
            &&& later.reinitializer_result(version) == Err::<(), _>(
                ContractError::InvalidInitialization,
            )
            &&& later.after_reinitializer(version) == later
            &&& later.reinitializer_events(version) == Seq::<Event>::empty()
        }),
{
    version_never_decreases(s, ops);
}

/// A successful initialization of `version` makes every later attempt at
/// `version`, or at anything below it, fail with `InvalidInitialization`.
pub proof fn reinitializer_cannot_be_replayed(
    s: InitializableStorage,
    version: u64,
    ops: Seq<Operation>,
    again: u64,
)
    requires
        s.admits_reinitializer(version),
        again <= version,
    ensures
        s.reinitializer_result(version) == Ok::<_, ContractError>(()),
        s.after_reinitializer(version).initialized == version,
        s.after_reinitializer(version).after_all(ops).reinitializer_result(again) == Err::<(), _>(
            ContractError::InvalidInitialization,
        ),
{
    passed_version_stays_refused(s.after_reinitializer(version), ops, again);
}

/// Locking a guard in which no initialization is in progress gives it the
/// locked version, and publishes one notice if the lock is new. Locking it
/// again succeeds, changes nothing and publishes nothing.
pub proof fn disable_locks_once(s: InitializableStorage)
    requires
        !s.initializing,
    ensures
        s.disable_result() == Ok::<_, ContractError>(()),
        s.after_disable() == (InitializableStorage {
            initialized: LOCKED_VERSION,
            initializing: false,
        }),
        !s.is_locked() ==> s.disable_events() == seq![Event::disable()],
        ({
            let locked = s.after_disable();
            &&& locked.disable_result() == Ok::<_, ContractError>(())
            &&& locked.after_disable() == locked
            &&& locked.disable_events() == Seq::<Event>::empty()
        }),
{
}

/// A locked guard is final: whatever is called, its record stays as it is
/// and nothing is published.
pub proof fn locked_guard_never_changes(s: InitializableStorage, ops: Seq<Operation>)
    requires
        s.is_locked(),
    ensures
        s.after_all(ops) == s,
        s.events_of_all(ops) == Seq::<Event>::empty(),
    decreases ops.len(),
{
    if ops.len() > 0 {
        locked_guard_never_changes(s, ops.drop_last());
    }
}

/// Once a guard has been locked, the first initialization and the
/// initialization of any version fail with `InvalidInitialization`,
/// whatever has been called since.
pub proof fn nothing_is_admitted_after_disable(
    s: InitializableStorage,
    ops: Seq<Operation>,
    version: u64,
)
    requires
        !s.initializing,
    ensures
        ({
            let later = s.after_disable().after_all(ops);
            &&& later == s.after_disable()
            &&& later.initializer_result() == Err::<(), _>(ContractError::InvalidInitialization)
            &&& later.reinitializer_result(version) == Err::<(), _>(
                ContractError::InvalidInitialization,
            )
        }),
{
    locked_guard_never_changes(s.after_disable(), ops);
}

} // verus!
