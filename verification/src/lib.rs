//! Supervision core for a single auxiliary server process.
//!
//! The crate holds the decisions of a supervisor: which port the service is
//! given, what the shared service record looks like after each event, and
//! what the surrounding program has to do next. It performs no input or
//! output itself.

pub mod api_service;
pub mod ports;
pub mod service_manager;
pub mod text;
