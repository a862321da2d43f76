//! Telemetry of a peer-to-peer file distribution client: a fixed set of Prometheus
//! metric families, the events that update them, and the scrape and reset operations
//! of the metrics endpoint.

pub mod collect;
pub mod declare;
pub mod family;
pub mod laws;
pub mod registry;
pub mod server;
pub mod size;
pub mod text;
