//! A ledger of per-user balance records held at derived addresses.
//!
//! Every operation re-derives the addresses of the records it touches,
//! checks that the operator signed, keeps `blocked_amount <= balance`,
//! and either commits its whole effect or reports an error and changes
//! nothing.

pub mod address;
pub mod error;
pub mod instruction;
pub mod processor;
pub mod state;
