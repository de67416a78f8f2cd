//! A hook-dispatch and contribution-merging engine for a WIT code generator.
//!
//! External plugins ("visitors") customize emitted code by answering to
//! annotation targets found on schema nodes. Each visitor implements a
//! subset of per-node-kind hooks; every hook may return a contribution,
//! an ordered accumulator of generated-code fragments. A registry routes
//! each annotation target to the one visitor that owns it, and an
//! `AnnotationResult` merges all contributions produced for one node.

pub mod annotations;
pub mod contribution;
pub mod contribution_types;
pub mod dispatch;
pub mod return_types;
pub mod schema;
pub mod visitor;
