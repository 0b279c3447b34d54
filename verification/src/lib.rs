//! Ingestion of road-roughness telemetry: validation of queue deliveries,
//! bounded batching with a size and an idle-timeout trigger, best-effort
//! road snapping and all-or-nothing persistence of bump records.
//!
//! Every function here is pure: the broker, the map-matching service and the
//! spatial store are driven by the caller, which feeds their outcomes back in.

pub mod batch;
pub mod bumprecord;
pub mod bumps;
pub mod clock;
pub mod config;
pub mod double;
pub mod failure;
pub mod geography;
pub mod message;
pub mod osrm;
pub mod rabbit;
pub mod validation;
