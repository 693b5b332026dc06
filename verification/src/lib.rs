//! Sale and accounting engine for an NFT collection, with a collection
//! registry: a whitelist-gated, time-windowed mint sale that tracks an
//! internal fund ledger, splits proceeds between a protocol address and a
//! treasury address, and issues uniquely numbered tokens; and a directory
//! of the engine instances each owner has deployed.

pub mod engine;
pub mod error;
pub mod fees;
pub mod ledger;
pub mod numerals;
pub mod registry;
pub mod response;
pub mod store;
