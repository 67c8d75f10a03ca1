//! Automatic replenishment of produced goods: when a confirmed sales document
//! is seen, each of its lines is checked against stock, and where stock runs
//! low a production transaction is created from the product's bill of
//! materials.
//!
//! The library holds the decisions; the transport (HTTP, JSON, configuration
//! from the environment) drives it from outside through the step machine in
//! [`processor`].

pub mod quantity;
pub mod text;
pub mod models;
pub mod stock;
pub mod config;
pub mod api;
pub mod line;
pub mod report;
pub mod processor;
pub mod webhook;
