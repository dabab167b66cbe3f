//! A payments engine: per-client accounts driven by deposits, withdrawals,
//! disputes, resolves and chargebacks.
//!
//! Money is an exact fixed-point [`amount::Amount`], computed with
//! `rust_decimal` behind the contracts of [`decimal`]. The rules of each
//! transaction kind are in [`rules`];
//! [`model::Account::process_transaction`] dispatches one record to them,
//! and [`ledger::Ledger`] keeps one account per client. Every executable
//! function carries a contract over the mathematical model in
//! [`model::AccountView`], and [`laws`] proves what holds of that model
//! across several transactions.

pub mod amount;
pub mod decimal;
pub mod laws;
pub mod ledger;
pub mod model;
pub mod rules;
