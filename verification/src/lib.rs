//! Trip status ledger: a single-record state machine tracking a shipment
//! through three ordered checkpoints (`Departed`, `InTransit`, `Delivered`),
//! together with the data shapes and the response mapping that a query
//! gateway uses to report ledger outcomes.

pub mod gateway;
pub mod ledger;
pub mod models;
