//! The ledger behind a student and finance desk: students, cash records,
//! installment plans and the figures derived from them, with every operation
//! specified by its contract and proved.
//!
//! - `text`, `validation`: checks on input before it reaches the stores.
//! - `model`, `error`: the entities and the ways an operation can fail.
//! - `student`, `cash`: the two stores, with builders, updaters and queries.
//! - `installment`: payment plans spread over several cash records.
//! - `stats`, `reports`: totals, searches and reminders.
//! - `manager`, `accounts`: the `Ledger` that callers use.
//! - `clock`: the time now and RFC 3339 dates, from chrono.
//! - `response`: flat snapshots for callers outside the ledger.
//! - `laws`: properties proved of all inputs.

pub mod accounts;
pub mod cash;
pub mod clock;
pub mod error;
pub mod installment;
pub mod laws;
pub mod manager;
pub mod model;
pub mod reports;
pub mod response;
pub mod stats;
pub mod student;
pub mod text;
pub mod validation;
