//! A store of named text documents that can be locked and unlocked as a whole.
//!
//! The store keeps its documents in a table keyed by name, next to an index
//! of the known names. While the store is locked no document can be written
//! or read. Encrypting and decrypting the backing artifact is the host's
//! work: the store decides whether a transition may start, says what the
//! host has to do, and changes state once the host reports how it went.

pub mod backend;
pub mod commands;
pub mod crypt;
pub mod document;
pub mod errors;
pub mod laws;
pub mod lock_state;
pub mod manager;
pub mod model;
pub mod name;
pub mod name_index;

pub use commands::{run_command, Cmd, CmdReply};
pub use crypt::{CryptJob, EngineOutcome};
pub use document::{Document, DocumentView};
pub use errors::{DocError, PyroError, UserError};
pub use lock_state::LockState;
pub use manager::DocumentManager;
pub use model::StoreState;
