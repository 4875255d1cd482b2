//! Catalog records for purchasable filament spools.
//!
//! The crate models one entity family — a catalog record for a retailer-listed
//! filament spool — together with the two disciplines that keep such records
//! sound: an open-set enumeration codec that round-trips unknown raw values
//! without loss, and a write-then-patch protocol that keeps the derived
//! price-per-kilogram field consistent with the price and weight fields after
//! every write.

pub mod config;
pub mod diameter;
pub mod hook;
pub mod material;
pub mod measure;
pub mod product;
pub mod retailer;
mod text;
