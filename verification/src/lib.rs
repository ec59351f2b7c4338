//! The custody ledger of a cross-chain token bridge, and the splitting of
//! taxed transfers.

pub mod address;
pub mod amount;
pub mod bridge_pool;
pub mod crypto_utils;
pub mod error;
pub mod registry;
pub mod tax_distributor;
