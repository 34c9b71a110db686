//! The guard: one record, and the operations that read and change it.

use vstd::prelude::*;
use crate::error::ContractError;
use crate::event::{Event, EventKind, Payload};
use crate::storage::{InitializableStorage, LOCKED_VERSION};

verus! {

/// The initialization guard of one contract.
///
/// Its view is its record. Every operation that changes the record either
/// succeeds as a whole or fails and leaves both the record and the list of
/// notifications as they were.
pub struct Initializable {
    storage: InitializableStorage,
}

impl View for Initializable {
    type V = InitializableStorage;

    closed spec fn view(&self) -> InitializableStorage {
        self.storage
    }
}

impl Initializable {
    /// Creates the guard of a contract that has never been initialized.
    pub fn new() -> (guard: Self)
        ensures
            guard@ == InitializableStorage::fresh(),
            guard@.initialized == 0,
            !guard@.initializing,
    {
        Initializable { storage: InitializableStorage::new() }
    }

    /// Creates the guard that continues from a record kept in storage.
    pub fn from_storage(storage: InitializableStorage) -> (guard: Self)
        ensures
            guard@ == storage,
    {
        Initializable { storage }
    }

    /// Runs the first initialization.
    ///
    /// It is admitted when nothing has been initialized and no initialization
    /// is in progress. On success the version is 1, no initialization is in
    /// progress, and the notice of the first initialization is appended to
    /// `events`. A second call therefore fails: a guard that rests at version
    /// 1 does not admit it.
    ///
    /// One more record admits the call: version 1 with an initialization in
    /// progress, as a guard continued from storage in the middle of its
    /// construction has it. That call succeeds in the same way and ends the
    /// initialization in progress.
    ///
    /// In every other case the call fails with `InvalidInitialization` and
    /// changes nothing.
    pub fn initializer(&mut self, events: &mut Vec<Event>) -> (res: Result<(), ContractError>)
        ensures
            res == old(self)@.initializer_result(),
            res is Ok <==> (old(self)@.initialized == 0 && !old(self)@.initializing)
                || (old(self)@.initialized == 1 && old(self)@.initializing),
            final(self)@ == old(self)@.after_initializer(),
            final(events)@ == old(events)@ + old(self)@.initializer_events(),
            res is Ok ==> final(self)@.initialized == 1 && !final(self)@.initializing,
            res is Err ==> final(self)@ == old(self)@ && final(events)@ == old(events)@,
    {
        let is_top_level_call = !self.storage.initializing;
        let initialized = self.storage.initialized;

        let is_initial_setup = initialized < 1 && is_top_level_call;
        let construction = initialized == 1 && !is_top_level_call;
        if !is_initial_setup && !construction {
            return Err(ContractError::InvalidInitialization);
        }

        // The flag is up for the extent of an outermost call, and down when
        // any admitted call returns.
        self.storage.initialized = 1;
        if is_top_level_call {
            self.storage.initializing = true;
        }
        self.storage.initializing = false;

        events.push(Event { kind: EventKind::Initial, payload: Payload::I32(1) });
        Ok(())
    }

    /// Runs the initialization of `version`.
    ///
    /// It is admitted when no initialization is in progress and `version`
    /// lies above the current version. On success the version is `version`,
    /// no initialization is in progress, and the notice of this version is
    /// appended to `events`. Otherwise the call fails with
    /// `InvalidInitialization` and changes nothing.
    pub fn reinitializer(&mut self, events: &mut Vec<Event>, version: u64) -> (res: Result<
        (),
        ContractError,
    >)
        ensures
            res == old(self)@.reinitializer_result(version),
            res is Ok <==> !old(self)@.initializing && old(self)@.initialized < version,
            final(self)@ == old(self)@.after_reinitializer(version),
            final(events)@ == old(events)@ + old(self)@.reinitializer_events(version),
            res is Ok ==> final(self)@.initialized == version && !final(self)@.initializing,
            res is Err ==> final(self)@ == old(self)@ && final(events)@ == old(events)@,
    {
        let initializing = self.storage.initializing;
        let initialized = self.storage.initialized;
        if initializing || initialized >= version {
            return Err(ContractError::InvalidInitialization);
        }

        self.storage.initialized = version;
        self.storage.initializing = true;
        self.storage.initializing = false;

        events.push(Event { kind: EventKind::Reinitial, payload: Payload::U64(version) });
        Ok(())
    }

    /// Succeeds only while an initialization is in progress; a synonym of
    /// [`Initializable::check_initializing`] for routines that must run
    /// inside one.
    pub fn only_initializing(&self) -> (res: Result<(), ContractError>)
        ensures
            res == self@.initializing_check(),
    {
        self.check_initializing()
    }

    /// Fails with `NotInitializing` unless an initialization is in progress.
    pub fn check_initializing(&self) -> (res: Result<(), ContractError>)
        ensures
            res == self@.initializing_check(),
    {
        if !self.is_initializing() {
            return Err(ContractError::NotInitializing);
        }
        Ok(())
    }

    /// Locks the guard: no initialization will be admitted again.
    ///
    /// It fails with `InvalidInitialization`, and changes nothing, while an
    /// initialization is in progress. Otherwise it succeeds: a guard that is
    /// not yet locked takes the locked version and the notice of the lock is
    /// appended to `events`; a guard that is locked already stays as it is
    /// and nothing is appended.
    pub fn disable_initializers(&mut self, events: &mut Vec<Event>) -> (res: Result<
        (),
        ContractError,
    >)
        ensures
            res == old(self)@.disable_result(),
            res is Ok <==> !old(self)@.initializing,
            final(self)@ == old(self)@.after_disable(),
            final(events)@ == old(events)@ + old(self)@.disable_events(),
            res is Ok ==> final(self)@.initialized == LOCKED_VERSION && !final(self)@.initializing,
            res is Err ==> final(self)@ == old(self)@ && final(events)@ == old(events)@,
    {
        if self.storage.initializing {
            return Err(ContractError::InvalidInitialization);
        }

        if self.storage.initialized != LOCKED_VERSION {
            self.storage.initialized = LOCKED_VERSION;
            events.push(Event { kind: EventKind::Disable, payload: Payload::U64(LOCKED_VERSION) });
        }
        Ok(())
    }

    /// Returns the highest version that has been initialized.
    pub fn get_initialized_version(&self) -> (version: u64)
        ensures
            version == self@.initialized,
    {
        self.storage.initialized
    }

    /// Returns whether an initialization is in progress.
    pub fn is_initializing(&self) -> (initializing: bool)
        ensures
            initializing == self@.initializing,
    {
        self.storage.initializing
    }

    /// Returns the guard's record, as the contract is to keep it in storage.
    pub fn get_initializable_storage(&self) -> (storage: &InitializableStorage)
        ensures
            *storage == self@,
    {
        &self.storage
    }
}

} // verus!
