//! The documents and the rules that hold of them.

pub mod identifiers;
pub mod states;
pub mod artifacts;
pub mod operation;
pub mod budget;
pub mod events;
pub mod telemetry;
pub mod execution;
pub mod redaction;
pub mod failure;
pub mod failure_assembly;
pub mod failure_laws;
pub mod failure_render;
pub mod record;
pub mod workflow;
pub mod workflow_graph;
pub mod workflow_laws;
pub mod workflow_lease;
pub mod workflow_receipts;
pub mod manifest;
