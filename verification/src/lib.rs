//! A last-entrant-wins escrow game with an escalating ticket price.
//!
//! Every ticket costs one price increment more than the previous one and makes
//! its buyer the leader. Once nobody has bought a ticket for a configured
//! number of blocks the game is over, and the leader may withdraw the pool.

pub mod custodian;
pub mod engine;
pub mod history;
pub mod laws;
pub mod ledger;
pub mod types;

pub use engine::Module;
pub use ledger::Ledger;
pub use types::{Config, Error, Event, TransferError};
