//! The record that the guard keeps, and the rules of its three transitions.

use vstd::prelude::*;
use crate::error::ContractError;
use crate::event::Event;

verus! {

/// Storage slot under which the embedding contract keeps the record: the
/// namespace `openzeppelin.storage.Initializable`, hashed so that it cannot
/// collide with the slots of other modules that share the same storage.
pub const INITIALIZABLE_STORAGE: [u8; 32] = [
    0xf0, 0xc5, 0x7e, 0x16, 0x84, 0x0d, 0xf0, 0x40,
    0xf1, 0x50, 0x88, 0xdc, 0x2f, 0x81, 0xfe, 0x39,
    0x1c, 0x39, 0x23, 0xbe, 0xc7, 0x3e, 0x23, 0xa9,
    0x66, 0x2e, 0xfc, 0x9c, 0x22, 0x9c, 0x6a, 0x00,
];

/// The version that marks a locked guard: the largest one there is.
pub const LOCKED_VERSION: u64 = u64::MAX;

/// The guard's record.
///
/// `initialized` is the highest version that has been initialized: 0 before
/// the first initialization, `LOCKED_VERSION` once the guard is locked.
/// `initializing` is raised while an initialization is in progress.
#[derive(Clone, Copy, Debug, PartialEq, Eq, Structural)]
pub struct InitializableStorage {
    pub initialized: u64,
    pub initializing: bool,
}

impl InitializableStorage {
    /// The record of a guard that has never been used.
    pub open spec fn fresh() -> Self {
        InitializableStorage { initialized: 0, initializing: false }
    }

    /// Whether the guard is locked.
    pub open spec fn is_locked(self) -> bool {
        self.initialized == LOCKED_VERSION
    }

    /// Whether the first initialization is admitted.
    ///
    /// It is admitted as the setup of a guard on which nothing has been
    /// initialized and no initialization is in progress. It is also admitted
    /// as a step of a construction under way: the version is 1 and an
    /// initialization is in progress. A guard that rests at version 1, with
    /// no initialization in progress, has been set up and does not admit it.
    pub open spec fn admits_initializer(self) -> bool {
        ||| self.initialized < 1 && !self.initializing
        ||| self.initialized == 1 && self.initializing
    }

    /// What an attempt at the first initialization answers.
    pub open spec fn initializer_result(self) -> Result<(), ContractError> {
        if self.admits_initializer() {
            Ok(())
        } else {
            Err(ContractError::InvalidInitialization)
        }
    }

    /// The record after an attempt at the first initialization.
    pub open spec fn after_initializer(self) -> Self {
        if self.admits_initializer() {
            InitializableStorage { initialized: 1, initializing: false }
        } else {
            self
        }
    }

    /// What an attempt at the first initialization publishes.
    pub open spec fn initializer_events(self) -> Seq<Event> {
        if self.admits_initializer() {
            seq![Event::initial()]
        } else {
            Seq::empty()
        }
    }

    /// Whether the initialization of `version` is admitted: none is in
    /// progress and `version` lies above the current one.
    pub open spec fn admits_reinitializer(self, version: u64) -> bool {
        !self.initializing && self.initialized < version
    }

    /// What an attempt to initialize `version` answers.
    pub open spec fn reinitializer_result(self, version: u64) -> Result<(), ContractError> {
        if self.admits_reinitializer(version) {
            Ok(())
        } else {
            Err(ContractError::InvalidInitialization)
        }
    }

    /// The record after an attempt to initialize `version`.
    pub open spec fn after_reinitializer(self, version: u64) -> Self {
        if self.admits_reinitializer(version) {
            InitializableStorage { initialized: version, initializing: false }
        } else {
            self
        }
    }

    /// What an attempt to initialize `version` publishes.
    pub open spec fn reinitializer_events(self, version: u64) -> Seq<Event> {
        if self.admits_reinitializer(version) {
            seq![Event::reinitial(version)]
        } else {
            Seq::empty()
        }
    }

    /// Whether locking is admitted: no initialization is in progress.
    pub open spec fn admits_disable(self) -> bool {
        !self.initializing
    }

    /// What an attempt to lock the guard answers.
    pub open spec fn disable_result(self) -> Result<(), ContractError> {
        if self.admits_disable() {
            Ok(())
        } else {
            Err(ContractError::InvalidInitialization)
        }
    }

    /// The record after an attempt to lock the guard.
    pub open spec fn after_disable(self) -> Self {
        if self.admits_disable() {
            InitializableStorage { initialized: LOCKED_VERSION, initializing: false }
        } else {
            self
        }
    }

    /// What an attempt to lock the guard publishes: one notice when the lock
    /// is new, nothing when the guard was locked already.
    pub open spec fn disable_events(self) -> Seq<Event> {
        if self.admits_disable() && !self.is_locked() {
            seq![Event::disable()]
        } else {
            Seq::empty()
        }
    }

    /// What the check for an initialization in progress answers.
    pub open spec fn initializing_check(self) -> Result<(), ContractError> {
        if self.initializing {
            Ok(())
        } else {
            Err(ContractError::NotInitializing)
        }
    }

    /// Creates the record of a guard that has never been used.
    pub fn new() -> (storage: Self)
        ensures
            storage == Self::fresh(),
            storage.initialized == 0,
            !storage.initializing,
    {
        InitializableStorage { initialized: 0, initializing: false }
    }
}

} // verus!
