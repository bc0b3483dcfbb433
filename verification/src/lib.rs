//! Exports two facts about an Arbitrum node, the gas price and the latest
//! block number, as gauges in the Prometheus text format.

pub mod descriptor;
pub mod exposition;
pub mod metrics;
pub mod runtime;
pub mod server;
pub mod updater;
