//! Control plane of a per-host sandbox manager, written without I/O.
//!
//! The library decides; its caller performs. Every flow (creating a sandbox,
//! starting the sandbox's worker, resolving an endpoint at bootstrap) is a
//! chain of small steps: a step names the operation that is pending, the
//! caller carries it out and hands the outcome to the next step.

pub mod endpoint;
pub mod error;
pub mod laws;
pub mod manager;
pub mod netns;
pub mod outside;
pub mod registry;
pub mod runtime_spec;
pub mod shim;
pub mod worker;

pub use error::{Error, ErrorView};
pub use manager::{ConnectRequest, CreateRequest, Handoff, Sandbox, Service};
pub use netns::{NetworkAction, NetworkPlan};
pub use registry::Registry;
pub use runtime_spec::{Annotation, Linux, Namespace, NamespaceKind, RuntimeSpec};
pub use shim::{Resolution, Shim};
pub use worker::{start_sandbox, SetupOp, WorkerStep};
