//! Core of a dynamically startable and stoppable local HTTP static-file
//! server: a registry that enforces at most one running server instance,
//! the lifecycle operations (`start`, `stop`) built on it, the per-request
//! routing policy, and response construction with the fixed header set.
//!
//! Binding, serving and every other piece of I/O live in the host
//! application; this crate holds the decisions and proves them.

pub mod config;
pub mod errors;
pub mod lifecycle;
pub mod registry;
pub mod response;
pub mod routing;
pub mod shutdown;
