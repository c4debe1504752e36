//! The backend that implements the reactor's pluggable-poller contract
//! on top of an asynchronous task runtime: registration maps that
//! reference-count interest per resource, the readiness-task decisions,
//! and the dispatch cycle.

pub mod backend;
pub mod io;
pub mod runtime;
pub mod signal;
