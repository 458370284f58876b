//! A verified core for a controller that keeps a container image resident
//! ("ready") on the nodes of a cluster.
//!
//! The library holds the pure logic of the controller; all network I/O
//! lives in an unverified driver that feeds observed results back in as
//! plain values.
//!
//! - [`resource`]: the user's declaration and its observed identity.
//! - [`labels`]: the two-label scheme tying each per-node workload object
//!   to the resource generation that produced it, and the list filters
//!   built from it.
//! - [`builder`]: the deterministic desired-state builder, from resource
//!   and helper image to the complete workload object.
//! - [`reconcile`]: the reconciliation pass as a state machine from
//!   observed outcomes to cluster operations.
//! - [`model`]: the pass's effect on a modeled cluster, with proofs of
//!   convergence, idempotence, creation-race safety, and stale cleanup.
//! - [`refinement`]: the theorem that one successful pass of the machine,
//!   its commands taken at their model meanings, is exactly one model
//!   reconciliation pass.

pub mod builder;
pub mod labels;
pub mod model;
pub mod reconcile;
pub mod refinement;
pub mod resource;
