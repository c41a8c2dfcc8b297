//! Stock bookkeeping for an inventory web service.
//!
//! The service keeps, for each item, a total quantity and a reserved quantity.
//! Reservations hold stock for an order, releases give held stock back, and
//! commits ship held stock, lowering both counts. This crate holds the rules
//! that decide each of those operations, the error-to-HTTP mapping, and the
//! proofs that the rules keep every stored item consistent.
pub mod models;
pub mod services;
pub mod handlers;
pub mod standalone;
pub mod laws;

pub use models::{CreateItem, InventoryItem, StockLevels};
pub use services::{ServiceError, ServiceErrorView};
