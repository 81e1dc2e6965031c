//! What is known of projects and of the control plane at some time.

use vstd::prelude::*;
use super::identifiers::ProjectId;
use super::states::ProjectCondition;
use crate::unique_id::Uuid;

verus! {

/// How far an observation can be relied on.
#[derive(Clone, Copy, Debug, PartialEq, Eq, Structural)]
pub enum ObservationStatus {
    Fresh,
    Stale,
    SignalLost,
    Partial,
    Unsupported,
    Unknown,
}

/// The condition of a project as it was last seen.
#[derive(Clone, Debug, PartialEq)]
pub struct ProjectTelemetry {
    pub project_id: ProjectId,
    pub display_name: String,
    pub condition: ProjectCondition,
    pub observed_at_ms: Option<i64>,
    pub detail: String,
}

/// The control plane as it reports itself.
#[derive(Clone, Debug, PartialEq)]
pub struct ControlSummary {
    pub sqlite_version: String,
    pub observation_operation_id: Uuid,
    pub sample_interval_seconds: u64,
}

} // verus!
