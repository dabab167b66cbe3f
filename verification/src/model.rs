//! The data that the engine works on: transactions and accounts.

pub mod account;
pub mod transaction;

pub use account::Account;
pub use account::AccountError;
pub use account::AccountView;
pub use account::Snapshot;
pub use transaction::Transaction;
pub use transaction::TransactionType;
pub use transaction::TransactionView;
