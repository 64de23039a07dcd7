//! Bootstrap a Python project: configuration resolution, the manifest
//! templates, and the ordered bootstrap pipeline as a state machine whose
//! side effects are carried out by the caller.

pub mod config;
pub mod laws;
pub mod pipeline;
pub mod protocol;
pub mod remote;
pub mod template;
