//! Local credential store with a mirror-based three-way merge for sync.
//!
//! The store keeps two tables of logins: *local* rows are pending outgoing
//! changes, *mirror* rows are the last state that the server confirmed.
//! Incoming server records are classified, turned into an
//! [`plan::UpdatePlan`] and applied; the rows still pending upload form the
//! outgoing changeset.

mod error;
mod login;
mod delta;
mod table;
pub mod util;
pub mod schema;
pub mod changeset;
pub mod plan;
pub mod db;
pub mod laws;

pub use changeset::{IncomingChangeset, OutgoingChangeset, Payload, SyncLoginData};
pub use db::{LoginDb, MAX_VARIABLE_NUMBER};
pub use delta::LoginDelta;
pub use error::{Error, InvalidLoginReason};
pub use login::{Login, LocalLogin, MirrorLogin, ServerTimestamp, SyncStatus};
pub use plan::UpdatePlan;
