//! A multi-turn tool-calling agent for a Kubernetes cluster.
//!
//! The conversation model, the tool dispatcher and the orchestration loop's
//! decisions are verified here; the model client, the cluster and the worker
//! threads are driven by the program around the library.
pub mod conversation;
pub mod dispatch;
pub mod orchestrator;
pub mod manifest;
pub mod tools;
pub mod watch;
