//! One ledger instruction, `Init`: it pays up to four parties out of a funding wallet and
//! records a receipt that makes the payment unrepeatable for its reference.
//!
//! The library decides and never acts. `processor::init` is called with copies of the
//! accounts and with the outcome of the last request; it answers with the next
//! `processor::Action`: the requests of a payment, the requests that create the receipt, the
//! bytes to store in it, or the end of the invocation. Whoever drives it performs the action
//! on the ledger and calls again, until the action is `Finish`. The ledger keeps the effects
//! of an invocation only if it ends in `Progress::Done`.
//!
//! `laws` states what holds of every invocation driven in this way; `instruction` holds the
//! encoding of the instruction and its inverse.

pub mod account;
pub mod address;
pub mod cpi;
pub mod error;
pub mod instruction;
pub mod laws;
pub mod payment;
pub mod processor;
pub mod receipt;
pub mod state;
pub mod token;
pub mod utils;
