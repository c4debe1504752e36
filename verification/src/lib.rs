//! A verified model of a reactor backend that bridges a callback-driven
//! event-multiplexing loop with an asynchronous task runtime.
//!
//! The crate models the reactor's visible state (armed events, the active
//! set, loop-exit flags), the registration maps that reference-count
//! interest in file descriptors and signals, the dispatch cycle, and the
//! event-handle/callback-wrapper lifecycle that guarantees a callback
//! context is freed exactly once and never while its closure is running.

pub mod base;
pub mod event;
pub mod tokio_backend;
pub mod tokio_compat;

pub use base::Base;
pub use base::EventFlags;
pub use base::ExitReason;
pub use base::LoopFlags;
pub use base::Span;
pub use base::TimeVal;
pub use event::Event;
pub use event::Fd;
pub use event::Interval;
pub use event::Oneshot;
