//! Request-processing spine of a multi-tenant storage service.
//!
//! The crate holds the decisions that wrap every request: the per-request
//! tag set, the metric samples an emitter produces, the saturation monitor
//! of the connection pool, the error taxonomy and the exception reporter,
//! and the policies of the middleware pipeline. Everything here works on
//! plain values; sockets, sinks and the HTTP framework live with the caller.

pub mod string_map;
pub mod text;
pub mod tags;
pub mod metrics;
pub mod pool;
pub mod deadman;
pub mod error;
pub mod json;
pub mod pattern;
pub mod report;
pub mod rejectua;
pub mod middleware;
pub mod dockerflow;
pub mod db;
pub mod request;
