//! Authority service for a fungible token: validation of callers and derived
//! addresses, the persisted record formats, and the four state transitions
//! (configure, create token, mint, burn) as functions from the accounts
//! presented to the external calls and record image they call for.

pub mod error;
pub mod address;
pub mod account;
pub mod utils;
pub mod codec;
pub mod state;
pub mod ledger;
pub mod supply;
pub mod instruction;
pub mod processor;
