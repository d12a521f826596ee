//! Access to the database.

pub mod txn;
