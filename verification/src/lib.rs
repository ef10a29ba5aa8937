//! Verified core of the Aperture OTLP gateway and its tenancy layer.

pub mod catalogue;
pub mod tenancy;
pub mod text;
pub mod readiness;
pub mod backpressure;
pub mod shutdown;
pub mod serve;
pub mod body_cap;
pub mod cli;
pub mod net;
pub mod config;
pub mod config_schema;
pub mod otlp;
pub mod pillar;
pub mod translate;
pub mod ports;
pub mod summary;
pub mod storage_sink;
pub mod sinks;
