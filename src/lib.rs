//! A fungible-token ledger with per-transfer commission settlement.

pub mod config;
pub mod laws;
pub mod ledger;
pub mod model;
pub mod settlement;
mod table;
pub mod values;
