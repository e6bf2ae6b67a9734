//! Core of a small user-directory HTTP service: the identity store, the user
//! service that sits on it, and the observability pipeline that assigns
//! correlation identifiers, records telemetry and screens requests for
//! threat signals.

pub mod config;
pub mod correlation;
pub mod error;
pub mod handlers;
pub mod headers;
pub mod health;
pub mod middleware;
pub mod response;
pub mod service;
pub mod store;
pub mod store_laws;
pub mod telemetry;
pub mod text;
pub mod threat;
pub mod user;
pub mod validation;
