//! A live-reload engine: a long-running host keeps an interactive
//! application responsive while its behavior lives in a separately
//! compiled module that is reloaded at runtime when its build artifact
//! changes on disk. The crate verifies the module lifecycle: change
//! detection, versioned-copy naming, loading, state transfer across the
//! reload boundary, the atomic swap of the active module, and the
//! release of the old module's resources exactly once.

pub mod shared;
pub mod core_app;
pub mod calendar;
pub mod naming;
pub mod runtime;
pub mod loader;
pub mod monitor;
pub mod bridge;
pub mod lifecycle;
