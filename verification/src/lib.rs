//! Ingestion core for a decentralized-exchange order book: normalization of
//! loosely structured offer records into a typed model, the composite health
//! status of the store and the optional cache, the startup of the store
//! connection, and the batch bookkeeping of archival runs.

pub mod archival;
pub mod asset;
pub mod error;
pub mod health;
pub mod json;
pub mod number;
pub mod offer;
pub mod persistence;
