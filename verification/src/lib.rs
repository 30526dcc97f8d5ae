//! A minimal double-entry ledger engine.
//!
//! The ledger holds named accounts with balances in cents and moves funds
//! between them. Every transfer is validated, applied to both balances and
//! recorded as one transaction plus two balanced journal entries, all as one
//! unit: it happens as a whole or not at all.
//!
//! The state of the ledger is one value, [`repositories::Repositories`],
//! that every operation takes by reference. An exclusive reference makes an
//! operation a critical section; whoever serves requests puts the value
//! behind a lock and holds it for the length of one call.
//!
//! The operations, each with its contract:
//! - [`accounts::new_account`] and [`accounts::account_details`];
//! - [`transactions::new_transaction`] and
//!   [`transactions::transaction_details`];
//! - [`journal::entries_for_transaction`].
//!
//! Contracts speak of the *views* of the stores: sequences of plain records
//! in which aliases are sequences of characters and balances are
//! mathematical integers. [`transfers`] says over those views what a
//! transfer does, and [`laws`] proves what follows for every ledger:
//! funds are conserved, no balance is negative, every transaction has its
//! pair of entries, committed records stay as they are, and an alias is
//! taken once.
//!
//! Two things are not computed here but asked of the outside: random
//! identifiers ([`identifiers`]) and the time ([`clock`]). Each stands behind
//! one small function whose contract is believed, not proved. Whatever these
//! return, [`transactions::record_transaction`] and
//! [`accounts::open_account`] take it as an argument and are verified for
//! every value of it.

pub mod accounts;
pub mod clock;
pub mod errors;
pub mod identifiers;
pub mod journal;
pub mod laws;
pub mod repositories;
pub mod search;
pub mod transactions;
pub mod transfers;
