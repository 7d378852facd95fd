//! Bookkeeping for the receipts that one contract execution schedules:
//! the receipt manager, its data model, and a few byte-level helpers.

pub mod account;
pub mod crypto;
pub mod data_id;
pub mod errors;
pub mod hash;
pub mod method_name;
pub mod model;
pub mod operations;
pub mod receipt;
pub mod receipt_manager;
pub mod transaction;
pub mod utils;
