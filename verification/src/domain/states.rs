//! The states that operations, projects, backups and notifications go through.

use vstd::prelude::*;

verus! {

/// The phases of an operation.
#[derive(Clone, Copy, Debug, PartialEq, Eq, Hash, Structural)]
pub enum OperationPhase {
    Queued,
    SyncingSource,
    VerifyingSource,
    Testing,
    Building,
    Preflight,
    BackingUp,
    Draining,
    CutoverSnapshotting,
    Migrating,
    Deploying,
    HealthChecking,
    Soaking,
    Rollback,
    Reconciliation,
}

impl OperationPhase {
    /// The name in documents.
    pub open spec fn name(self) -> Seq<char> {
        match self {
            OperationPhase::Queued => "queued"@,
            OperationPhase::SyncingSource => "syncing_source"@,
            OperationPhase::VerifyingSource => "verifying_source"@,
            OperationPhase::Testing => "testing"@,
            OperationPhase::Building => "building"@,
            OperationPhase::Preflight => "preflight"@,
            OperationPhase::BackingUp => "backing_up"@,
            OperationPhase::Draining => "draining"@,
            OperationPhase::CutoverSnapshotting => "cutover_snapshotting"@,
            OperationPhase::Migrating => "migrating"@,
            OperationPhase::Deploying => "deploying"@,
            OperationPhase::HealthChecking => "health_checking"@,
            OperationPhase::Soaking => "soaking"@,
            OperationPhase::Rollback => "rollback"@,
            OperationPhase::Reconciliation => "reconciliation"@,
        }
    }

    pub fn as_str(self) -> (r: &'static str)
        ensures
            r@ == self.name(),
    {
        match self {
            OperationPhase::Queued => "queued",
            OperationPhase::SyncingSource => "syncing_source",
            OperationPhase::VerifyingSource => "verifying_source",
            OperationPhase::Testing => "testing",
            OperationPhase::Building => "building",
            OperationPhase::Preflight => "preflight",
            OperationPhase::BackingUp => "backing_up",
            OperationPhase::Draining => "draining",
            OperationPhase::CutoverSnapshotting => "cutover_snapshotting",
            OperationPhase::Migrating => "migrating",
            OperationPhase::Deploying => "deploying",
            OperationPhase::HealthChecking => "health_checking",
            OperationPhase::Soaking => "soaking",
            OperationPhase::Rollback => "rollback",
            OperationPhase::Reconciliation => "reconciliation",
        }
    }
}

impl OperationPhase {
    /// Before these phases production is as it was.
    pub open spec fn before_mutation(self) -> bool {
        self is Queued || self is SyncingSource || self is VerifyingSource || self is Testing
            || self is Building || self is Preflight
    }

    /// Whether production can have changed once this phase runs.
    pub fn crosses_mutation_boundary(self) -> (r: bool)
        ensures
            r == !self.before_mutation(),
    {
        match self {
            OperationPhase::BackingUp
            | OperationPhase::Draining
            | OperationPhase::CutoverSnapshotting
            | OperationPhase::Migrating
            | OperationPhase::Deploying
            | OperationPhase::HealthChecking
            | OperationPhase::Soaking
            | OperationPhase::Rollback
            | OperationPhase::Reconciliation => true,
            _ => false,
        }
    }
}

/// How an operation stands.
#[derive(Clone, Copy, Debug, PartialEq, Eq, Hash, Structural)]
pub enum OperationResult {
    Running,
    Succeeded,
    Failed,
    RolledBack,
    RollbackFailed,
    Cancelled,
    Superseded,
    ManualRecoveryRequired,
}

impl OperationResult {
    /// The name in documents.
    pub open spec fn name(self) -> Seq<char> {
        match self {
            OperationResult::Running => "running"@,
            OperationResult::Succeeded => "succeeded"@,
            OperationResult::Failed => "failed"@,
            OperationResult::RolledBack => "rolled_back"@,
            OperationResult::RollbackFailed => "rollback_failed"@,
            OperationResult::Cancelled => "cancelled"@,
            OperationResult::Superseded => "superseded"@,
            OperationResult::ManualRecoveryRequired => "manual_recovery_required"@,
        }
    }

    pub fn as_str(self) -> (r: &'static str)
        ensures
            r@ == self.name(),
    {
        match self {
            OperationResult::Running => "running",
            OperationResult::Succeeded => "succeeded",
            OperationResult::Failed => "failed",
            OperationResult::RolledBack => "rolled_back",
            OperationResult::RollbackFailed => "rollback_failed",
            OperationResult::Cancelled => "cancelled",
            OperationResult::Superseded => "superseded",
            OperationResult::ManualRecoveryRequired => "manual_recovery_required",
        }
    }
}

/// What keeps a running operation from going on.
#[derive(Clone, Copy, Debug, PartialEq, Eq, Hash, Structural)]
pub enum BlockingReason {
    Unblocked,
    DiskReserve,
    SourceDivergence,
    SourceBrokerUnavailable,
    SourceHeadSuperseded,
    SourceAttestationInvalid,
    PolicyUnavailable,
    PolicyInvalid,
    PolicyStale,
    SecurityStateInvalid,
    BackupPolicy,
    StaleTelemetry,
    ClockUnsynchronized,
    MaintenanceConflict,
    OperatorHold,
}

impl BlockingReason {
    /// The name in documents.
    pub open spec fn name(self) -> Seq<char> {
        match self {
            BlockingReason::Unblocked => "none"@,
            BlockingReason::DiskReserve => "disk_reserve"@,
            BlockingReason::SourceDivergence => "source_divergence"@,
            BlockingReason::SourceBrokerUnavailable => "source_broker_unavailable"@,
            BlockingReason::SourceHeadSuperseded => "source_head_superseded"@,
            BlockingReason::SourceAttestationInvalid => "source_attestation_invalid"@,
            BlockingReason::PolicyUnavailable => "policy_unavailable"@,
            BlockingReason::PolicyInvalid => "policy_invalid"@,
            BlockingReason::PolicyStale => "policy_stale"@,
            BlockingReason::SecurityStateInvalid => "security_state_invalid"@,
            BlockingReason::BackupPolicy => "backup_policy"@,
            BlockingReason::StaleTelemetry => "stale_telemetry"@,
            BlockingReason::ClockUnsynchronized => "clock_unsynchronized"@,
            BlockingReason::MaintenanceConflict => "maintenance_conflict"@,
            BlockingReason::OperatorHold => "operator_hold"@,
        }
    }

    pub fn as_str(self) -> (r: &'static str)
        ensures
            r@ == self.name(),
    {
        match self {
            BlockingReason::Unblocked => "none",
            BlockingReason::DiskReserve => "disk_reserve",
            BlockingReason::SourceDivergence => "source_divergence",
            BlockingReason::SourceBrokerUnavailable => "source_broker_unavailable",
            BlockingReason::SourceHeadSuperseded => "source_head_superseded",
            BlockingReason::SourceAttestationInvalid => "source_attestation_invalid",
            BlockingReason::PolicyUnavailable => "policy_unavailable",
            BlockingReason::PolicyInvalid => "policy_invalid",
            BlockingReason::PolicyStale => "policy_stale",
            BlockingReason::SecurityStateInvalid => "security_state_invalid",
            BlockingReason::BackupPolicy => "backup_policy",
            BlockingReason::StaleTelemetry => "stale_telemetry",
            BlockingReason::ClockUnsynchronized => "clock_unsynchronized",
            BlockingReason::MaintenanceConflict => "maintenance_conflict",
            BlockingReason::OperatorHold => "operator_hold",
        }
    }
}

/// What has to happen before a blocked operation is tried again.
#[derive(Clone, Copy, Debug, PartialEq, Eq, Hash, Structural)]
pub enum Retryability {
    Automatic,
    AfterExternalRecovery,
    OperatorRunbook,
}

impl Retryability {
    /// The name in documents.
    pub open spec fn name(self) -> Seq<char> {
        match self {
            Retryability::Automatic => "automatic"@,
            Retryability::AfterExternalRecovery => "after_external_recovery"@,
            Retryability::OperatorRunbook => "operator_runbook"@,
        }
    }

    pub fn as_str(self) -> (r: &'static str)
        ensures
            r@ == self.name(),
    {
        match self {
            Retryability::Automatic => "automatic",
            Retryability::AfterExternalRecovery => "after_external_recovery",
            Retryability::OperatorRunbook => "operator_runbook",
        }
    }
}

impl BlockingReason {
    pub open spec fn retried(self) -> Option<Retryability> {
        match self {
            BlockingReason::Unblocked => None,
            BlockingReason::SourceBrokerUnavailable => Some(Retryability::Automatic),
            BlockingReason::SourceHeadSuperseded => Some(Retryability::Automatic),
            BlockingReason::StaleTelemetry => Some(Retryability::Automatic),
            BlockingReason::PolicyUnavailable => Some(Retryability::AfterExternalRecovery),
            BlockingReason::ClockUnsynchronized => Some(Retryability::AfterExternalRecovery),
            BlockingReason::BackupPolicy => Some(Retryability::AfterExternalRecovery),
            BlockingReason::DiskReserve => Some(Retryability::AfterExternalRecovery),
            _ => Some(Retryability::OperatorRunbook),
        }
    }

    /// Only the absence of a reason needs no retry.
    pub fn retryability(self) -> (r: Option<Retryability>)
        ensures
            r == self.retried(),
            r is None <==> self is Unblocked,
    {
        match self {
            BlockingReason::Unblocked => None,
            BlockingReason::SourceBrokerUnavailable
            | BlockingReason::SourceHeadSuperseded
            | BlockingReason::StaleTelemetry => Some(Retryability::Automatic),
            BlockingReason::PolicyUnavailable
            | BlockingReason::ClockUnsynchronized
            | BlockingReason::BackupPolicy
            | BlockingReason::DiskReserve => Some(Retryability::AfterExternalRecovery),
            BlockingReason::SourceDivergence
            | BlockingReason::SourceAttestationInvalid
            | BlockingReason::PolicyInvalid
            | BlockingReason::PolicyStale
            | BlockingReason::SecurityStateInvalid
            | BlockingReason::MaintenanceConflict
            | BlockingReason::OperatorHold => Some(Retryability::OperatorRunbook),
        }
    }
}

/// The condition of a project.
#[derive(Clone, Copy, Debug, PartialEq, Eq, Hash, Structural)]
pub enum ProjectCondition {
    Healthy,
    Degraded,
    Down,
    Maintenance,
    Migrating,
    Unknown,
    SignalLost,
}

impl ProjectCondition {
    /// The name in documents.
    pub open spec fn name(self) -> Seq<char> {
        match self {
            ProjectCondition::Healthy => "healthy"@,
            ProjectCondition::Degraded => "degraded"@,
            ProjectCondition::Down => "down"@,
            ProjectCondition::Maintenance => "maintenance"@,
            ProjectCondition::Migrating => "migrating"@,
            ProjectCondition::Unknown => "unknown"@,
            ProjectCondition::SignalLost => "signal_lost"@,
        }
    }

    pub fn as_str(self) -> (r: &'static str)
        ensures
            r@ == self.name(),
    {
        match self {
            ProjectCondition::Healthy => "healthy",
            ProjectCondition::Degraded => "degraded",
            ProjectCondition::Down => "down",
            ProjectCondition::Maintenance => "maintenance",
            ProjectCondition::Migrating => "migrating",
            ProjectCondition::Unknown => "unknown",
            ProjectCondition::SignalLost => "signal_lost",
        }
    }
}

/// How far a backup can be relied on.
#[derive(Clone, Copy, Debug, PartialEq, Eq, Hash, Structural)]
pub enum BackupStatus {
    Absent,
    Pending,
    VerifiedLocal,
    VerifiedOffsite,
    Unverified,
    Corrupt,
    ProviderDegraded,
}

impl BackupStatus {
    /// The name in documents.
    pub open spec fn name(self) -> Seq<char> {
        match self {
            BackupStatus::Absent => "absent"@,
            BackupStatus::Pending => "pending"@,
            BackupStatus::VerifiedLocal => "verified_local"@,
            BackupStatus::VerifiedOffsite => "verified_offsite"@,
            BackupStatus::Unverified => "unverified"@,
            BackupStatus::Corrupt => "corrupt"@,
            BackupStatus::ProviderDegraded => "provider_degraded"@,
        }
    }

    pub fn as_str(self) -> (r: &'static str)
        ensures
            r@ == self.name(),
    {
        match self {
            BackupStatus::Absent => "absent",
            BackupStatus::Pending => "pending",
            BackupStatus::VerifiedLocal => "verified_local",
            BackupStatus::VerifiedOffsite => "verified_offsite",
            BackupStatus::Unverified => "unverified",
            BackupStatus::Corrupt => "corrupt",
            BackupStatus::ProviderDegraded => "provider_degraded",
        }
    }
}

/// Whether a release can be rolled back.
#[derive(Clone, Copy, Debug, PartialEq, Eq, Hash, Structural)]
pub enum RollbackCapability {
    Unavailable,
    Eligible,
    Ineligible,
    Consumed,
    UnsafeAfterMigration,
}

impl RollbackCapability {
    /// The name in documents.
    pub open spec fn name(self) -> Seq<char> {
        match self {
            RollbackCapability::Unavailable => "unavailable"@,
            RollbackCapability::Eligible => "eligible"@,
            RollbackCapability::Ineligible => "ineligible"@,
            RollbackCapability::Consumed => "consumed"@,
            RollbackCapability::UnsafeAfterMigration => "unsafe_after_migration"@,
        }
    }

    pub fn as_str(self) -> (r: &'static str)
        ensures
            r@ == self.name(),
    {
        match self {
            RollbackCapability::Unavailable => "unavailable",
            RollbackCapability::Eligible => "eligible",
            RollbackCapability::Ineligible => "ineligible",
            RollbackCapability::Consumed => "consumed",
            RollbackCapability::UnsafeAfterMigration => "unsafe_after_migration",
        }
    }
}

/// How the delivery of a notification stands.
#[derive(Clone, Copy, Debug, PartialEq, Eq, Hash, Structural)]
pub enum NotificationDelivery {
    Pending,
    Sending,
    Delivered,
    DeliveryUnknown,
    RetryScheduled,
    DeliveredPossibleDuplicate,
    PermanentlyFailed,
}

impl NotificationDelivery {
    /// The name in documents.
    pub open spec fn name(self) -> Seq<char> {
        match self {
            NotificationDelivery::Pending => "pending"@,
            NotificationDelivery::Sending => "sending"@,
            NotificationDelivery::Delivered => "delivered"@,
            NotificationDelivery::DeliveryUnknown => "delivery_unknown"@,
            NotificationDelivery::RetryScheduled => "retry_scheduled"@,
            NotificationDelivery::DeliveredPossibleDuplicate => "delivered_possible_duplicate"@,
            NotificationDelivery::PermanentlyFailed => "permanently_failed"@,
        }
    }

    pub fn as_str(self) -> (r: &'static str)
        ensures
            r@ == self.name(),
    {
        match self {
            NotificationDelivery::Pending => "pending",
            NotificationDelivery::Sending => "sending",
            NotificationDelivery::Delivered => "delivered",
            NotificationDelivery::DeliveryUnknown => "delivery_unknown",
            NotificationDelivery::RetryScheduled => "retry_scheduled",
            NotificationDelivery::DeliveredPossibleDuplicate => "delivered_possible_duplicate",
            NotificationDelivery::PermanentlyFailed => "permanently_failed",
        }
    }
}

/// Which path notifications can take.
#[derive(Clone, Copy, Debug, PartialEq, Eq, Hash, Structural)]
pub enum NotificationPath {
    Healthy,
    GatewayDegradedDirectAvailable,
    Unavailable,
}

impl NotificationPath {
    /// The name in documents.
    pub open spec fn name(self) -> Seq<char> {
        match self {
            NotificationPath::Healthy => "healthy"@,
            NotificationPath::GatewayDegradedDirectAvailable => "gateway_degraded_direct_available"@,
            NotificationPath::Unavailable => "unavailable"@,
        }
    }

    pub fn as_str(self) -> (r: &'static str)
        ensures
            r@ == self.name(),
    {
        match self {
            NotificationPath::Healthy => "healthy",
            NotificationPath::GatewayDegradedDirectAvailable => "gateway_degraded_direct_available",
            NotificationPath::Unavailable => "unavailable",
        }
    }
}

impl OperationPhase {
    /// The name of the variant.
    pub open spec fn variant_name(self) -> Seq<char> {
        match self {
            OperationPhase::Queued => "Queued"@,
            OperationPhase::SyncingSource => "SyncingSource"@,
            OperationPhase::VerifyingSource => "VerifyingSource"@,
            OperationPhase::Testing => "Testing"@,
            OperationPhase::Building => "Building"@,
            OperationPhase::Preflight => "Preflight"@,
            OperationPhase::BackingUp => "BackingUp"@,
            OperationPhase::Draining => "Draining"@,
            OperationPhase::CutoverSnapshotting => "CutoverSnapshotting"@,
            OperationPhase::Migrating => "Migrating"@,
            OperationPhase::Deploying => "Deploying"@,
            OperationPhase::HealthChecking => "HealthChecking"@,
            OperationPhase::Soaking => "Soaking"@,
            OperationPhase::Rollback => "Rollback"@,
            OperationPhase::Reconciliation => "Reconciliation"@,
        }
    }

    pub fn variant_str(self) -> (r: &'static str)
        ensures
            r@ == self.variant_name(),
    {
        match self {
            OperationPhase::Queued => "Queued",
            OperationPhase::SyncingSource => "SyncingSource",
            OperationPhase::VerifyingSource => "VerifyingSource",
            OperationPhase::Testing => "Testing",
            OperationPhase::Building => "Building",
            OperationPhase::Preflight => "Preflight",
            OperationPhase::BackingUp => "BackingUp",
            OperationPhase::Draining => "Draining",
            OperationPhase::CutoverSnapshotting => "CutoverSnapshotting",
            OperationPhase::Migrating => "Migrating",
            OperationPhase::Deploying => "Deploying",
            OperationPhase::HealthChecking => "HealthChecking",
            OperationPhase::Soaking => "Soaking",
            OperationPhase::Rollback => "Rollback",
            OperationPhase::Reconciliation => "Reconciliation",
        }
    }
}

impl Retryability {
    /// The name of the variant.
    pub open spec fn variant_name(self) -> Seq<char> {
        match self {
            Retryability::Automatic => "Automatic"@,
            Retryability::AfterExternalRecovery => "AfterExternalRecovery"@,
            Retryability::OperatorRunbook => "OperatorRunbook"@,
        }
    }

    pub fn variant_str(self) -> (r: &'static str)
        ensures
            r@ == self.variant_name(),
    {
        match self {
            Retryability::Automatic => "Automatic",
            Retryability::AfterExternalRecovery => "AfterExternalRecovery",
            Retryability::OperatorRunbook => "OperatorRunbook",
        }
    }
}

/// What holds an operation up is tried again by itself only where nothing but time is needed, after
/// something outside recovers where something outside is missing, and by an operator where trust is
/// at stake. What is not held up is not tried again.
pub proof fn law_distrust_is_left_to_operators(reason: BlockingReason, r: Option<Retryability>)
    requires
        call_ensures(BlockingReason::retryability, (reason,), r),
    ensures
        r is None <==> reason is Unblocked,
        r == Some(Retryability::Automatic) <==> reason is SourceBrokerUnavailable
            || reason is SourceHeadSuperseded || reason is StaleTelemetry,
        reason is SourceDivergence || reason is SourceAttestationInvalid || reason is PolicyInvalid
            || reason is PolicyStale || reason is SecurityStateInvalid || reason is MaintenanceConflict
            || reason is OperatorHold ==> r == Some(Retryability::OperatorRunbook),
        reason is DiskReserve || reason is BackupPolicy || reason is PolicyUnavailable
            || reason is ClockUnsynchronized ==> r == Some(Retryability::AfterExternalRecovery),
{
}

} // verus!
