//! Render-session orchestration: the session registry, per-tick decision
//! logic, extraction-bridge message handling, and injected-script
//! construction behind a synchronous page-rendering entry point.

pub mod bridge;
pub mod errors;
pub mod laws;
pub mod options;
pub mod script;
pub mod session;
pub mod tick;
