//! Verified core of an edge-stack onboarding tool: configuration materialising,
//! tenant device naming and provisioning requests, artifact bundles and the
//! cancellable run state machine that sequences them.

pub mod text;
pub mod naming;
pub mod envfile;
pub mod request;
pub mod config;
pub mod provision;
pub mod artifacts;
pub mod onboarding;
pub mod prereqs;
pub mod printing;
pub mod agents;
pub mod runner;
