//! A crowdfunding ledger: campaigns that collect declared donations until
//! their goal is met or their deadline has passed.
//!
//! The ledger works on an explicit [`EventStore`]; whoever hosts it reads the
//! store from durable state before an operation and writes it back after a
//! successful one. The host also supplies the outcome of the authorisation
//! check and the current time, so every operation here is a function of its
//! arguments alone.

pub mod error;
pub mod event;
pub mod host;
pub mod laws;
pub mod ledger;
pub mod store;

pub use crate::error::LedgerError;
pub use crate::event::{DonationEvent, Status};
pub use crate::ledger::DonatifiContract;
pub use crate::store::EventStore;
