//! Launch planning for a minimal Linux container runtime.
//!
//! A container here is one command in a process of its own, with its own
//! filesystem root, process-id space, network stack, IPC namespace and
//! hostname, and with a ceiling on the number of its processes.
//!
//! The crate decides and performs nothing. A launch is a state machine,
//! [`Launch`], that hands out one [`Action`] at a time and takes the
//! [`Report`] of how it went. The caller performs each action in the right
//! process and reports back, until the launch has ended and gives its exit
//! status. [`run_container`] plans the part of the supervising process,
//! [`spawn_child`] the part of the isolated process that the supervisor
//! creates.
//!
//! A launch that fails is not unwound. The first failure ends it, the
//! isolated process terminates with the status of the error, and what it had
//! mounted goes with its mount namespace.
//!
//! The group of a container is left in place when the container has ended.
//! Two launches under one cgroup name share that group: the later one
//! rewrites the ceiling and both are members. Callers that start containers
//! concurrently give each a name of its own.

pub mod action;
pub mod encoding;
pub mod error;
pub mod guarantees;
pub mod launch;
pub mod namespaces;
pub mod request;
pub mod text;

pub use action::{Action, Report};
pub use error::{
    CallSite, Cause, ControllerOperation, Defect, ExecutionFault, Field, LaunchError,
    MountOperation,
};
pub use launch::{
    run_container, spawn_child, termination_status, Launch, Progress, Stage, Step,
};
pub use namespaces::{NamespaceFlagSet, NamespaceKind};
pub use request::{LaunchRequest, ResourcePolicy};
