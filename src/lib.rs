//! Currency conversion with a verified rate-resolution pipeline.
//!
//! - `decimal`: exact decimal numbers for amounts and rates.
//! - `rates`: a table of rates keyed by currency code.
//! - `error`: why a rate could not be resolved.
//! - `converter`: applies a resolved rate to an amount.
//! - `provider`: the decisions of an HTTP-backed rate source with a local
//!   snapshot to fall back on.

pub mod converter;
pub mod decimal;
pub mod error;
pub mod provider;
pub mod rates;
