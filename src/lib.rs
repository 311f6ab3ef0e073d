//! Supervision core for a local mining stack: version handling and binary
//! resolution, a per-process lifecycle state machine, service managers built
//! on it, the setup sequence, and the pure status computations.
pub mod guard;
pub mod metrics;
pub mod mining;
pub mod orchestrator;
pub mod reset;
pub mod resolver;
pub mod services;
pub mod version;
pub mod watcher;
