//! Verified core of a Git/Kubernetes automation toolkit.
//!
//! The heart of the crate is a bi-directional repository synchronization
//! engine: a stateful reconciler that inspects two Git object databases,
//! computes commit-graph divergence relative to a persisted checkpoint, and
//! decides a safe convergence action (forward sync, reverse sync, or abort on
//! divergence). Around it stand the verified data models and decision
//! functions of the surrounding modules: Git command planning, release
//! strategies, service-mesh traffic splits, secret providers, cluster
//! orchestration, and CI/CD resource types.

pub mod api;
pub mod checkpoint;
pub mod cluster;
pub mod command;
pub mod commit_id;
pub mod crds;
pub mod devops;
pub mod divergence;
pub mod drift;
pub mod engine;
pub mod fmt;
pub mod git_ops;
pub mod gitdb;
pub mod issues;
pub mod local_dev;
pub mod mesh;
pub mod orchestrator;
pub mod pipeline;
pub mod policy;
pub mod preview;
pub mod release;
pub mod secrets;
pub mod send;
pub mod text;
pub mod workflow;
