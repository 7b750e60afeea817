//! Transactional core of a single-record parity-betting game.
//!
//! One persistent game record moves through a betting round by way of five
//! guarded transitions (start, wager, bonus funding, resolution, reset).
//! Every transition is a pure function from the current record and the
//! incoming command to either a new record (plus an outbound transfer
//! instruction, where the round settles) or a typed error; the host that
//! persists the record and moves funds lives outside this crate.

pub mod coin_helper;
pub mod contract;
mod error;
pub mod laws;
pub mod msg;
pub mod state;

pub use crate::error::ContractError;
