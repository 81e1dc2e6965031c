//! The rules of the controller: who may start an operation, and how what is recorded of it changes.

use vstd::prelude::*;
use crate::domain::artifacts::ArtifactContractError;
use crate::domain::operation::{OperationContractError, OperationStateError};
use crate::unique_id::Uuid;

pub mod admission;
pub mod laws;
pub mod merge;
pub mod outcomes;
pub mod transitions;

verus! {

/// Why the controller refuses a request.
#[derive(Clone, Copy, Debug, PartialEq, Eq)]
pub enum StoreError {
    ArtifactEvidenceConflict(&'static str),
    AutomationAdmissionRejected,
    CancellationAfterMutation,
    CorruptController(&'static str),
    DeliveryConflict,
    DiskObservationUnavailable,
    DiskReservationCapacity,
    FailureAfterMutationRequiresReconcile,
    GrantBindingMismatch,
    GrantExpired,
    GrantReplay,
    InvalidControllerInput(&'static str),
    LeaseExpired,
    LeaseRevoked,
    LockPoisoned,
    OperationNotFound(Uuid),
    ReceiptDigestMismatch,
    ReceiptMismatch,
    RecoveryRequired(Uuid),
    RetryGrantRequired(Uuid),
    SecurityRecoveryRequired,
    SourceAdmissionRequired,
    StaleSourceSequence,
    TransitionRejected,
    Contract(OperationContractError),
    State(OperationStateError),
    Artifacts(ArtifactContractError),
    Encoding,
}

/// The controller over some store of operations.
#[derive(Clone, Debug)]
pub struct DurableController<S> {
    store: S,
}

impl<S> DurableController<S> {
    pub closed spec fn held_store(self) -> S {
        self.store
    }

    pub fn new(store: S) -> (r: Self)
        ensures
            r.held_store() == store,
    {
        DurableController { store }
    }

    pub fn store(&self) -> (r: &S)
        ensures
            *r == self.held_store(),
    {
        &self.store
    }
}

} // verus!
