//! Rental rules for tokenized property records.
//!
//! A record can be let under two independent models: a long-term lease to a
//! single tenant, and a calendar of short stays. This crate holds the state
//! machines of both, the rules that decide who may drive them, and the ledger
//! of escrowed funds. Every operation takes one record, the caller and the
//! caller's arguments, and either changes the record and returns the payments
//! to send, or fails and leaves the record as it was.
//!
//! The crate keeps no store and sends no funds. Whoever calls it loads the
//! record and the caller's blanket grant, hands them over, stores the record
//! that an operation leaves, and carries out the payments it returns.
//!
//! - [`token`]: the record, the caller, and who may act on a record.
//! - [`escrow`]: the ledger of deposits and withdrawals.
//! - [`longterm`]: the lease of one tenant.
//! - [`shortterm`]: the calendar of short stays.
//! - [`date`]: the dates of a stay.
//! - [`rules`]: what each command does to a record, and what holds of all of them.
//! - [`execute`]: the commands themselves.

pub mod error;
pub mod expiration;
pub mod date;
pub mod payment;
pub mod escrow;
pub mod shortterm;
pub mod longterm;
pub mod token;
pub mod msg;
pub mod rules;
pub mod execute;
