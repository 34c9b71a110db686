//! Initialization guard for upgradeable contracts.
//!
//! An upgradeable contract keeps its storage when its code is replaced, so
//! its setup must be guarded: it may run once, and each later migration may
//! run once, in rising order of version. The guard keeps a small record (the
//! highest version initialized, and whether an initialization is in
//! progress) and decides, call by call, what is admitted. It can also be
//! locked for good.
//!
//! - [`storage`] holds the record and states the rules of its transitions.
//! - [`guard`] holds the guard itself: the operations, each with its contract.
//! - [`event`] holds the notifications that the operations hand out.
//! - [`error`] holds the two failures.
//! - [`history`] proves what holds after any sequence of calls.

pub mod error;
pub mod event;
pub mod guard;
pub mod history;
pub mod storage;

pub use error::ContractError;
pub use event::{Event, EventKind, Payload};
pub use guard::Initializable;
pub use history::Operation;
pub use storage::{InitializableStorage, INITIALIZABLE_STORAGE, LOCKED_VERSION};
