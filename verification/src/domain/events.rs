//! The stream of events that a dashboard follows.

use vstd::prelude::*;

verus! {

pub const EVENT_PROTOCOL_VERSION: u16 = 1;

/// Why a subscriber has to start over.
#[derive(Clone, Copy, Debug, PartialEq, Eq, Structural)]
pub enum ResyncReason {
    HistoryUnavailable,
    SubscriberLagged,
    InvalidLastEventId,
}

/// An event, with the snapshot type of the side that measures the host.
#[derive(Clone, Debug, PartialEq)]
pub enum DashboardEvent<S> {
    Snapshot(Box<S>),
    ResyncRequired {
        requested_after: Option<u64>,
        oldest_available: u64,
        latest_available: u64,
        reason: ResyncReason,
    },
}

impl<S> DashboardEvent<S> {
    pub fn event_name(&self) -> (r: &'static str)
        ensures
            r@ == match self {
                DashboardEvent::Snapshot(_) => "snapshot"@,
                DashboardEvent::ResyncRequired { .. } => "resync_required"@,
            },
    {
        match self {
            DashboardEvent::Snapshot(_) => "snapshot",
            DashboardEvent::ResyncRequired { .. } => "resync_required",
        }
    }
}

/// An event with its place in the stream.
#[derive(Clone, Debug, PartialEq)]
pub struct EventEnvelope<S> {
    pub version: u16,
    pub sequence: u64,
    pub emitted_at_ms: i64,
    pub event: DashboardEvent<S>,
}

/// Why an event is refused.
#[derive(Clone, Copy, Debug, PartialEq, Eq, Structural)]
pub enum EventValidationError {
    UnsupportedVersion(u16),
    ZeroSequence,
}

impl<S> EventEnvelope<S> {
    /// Accepts an event of the known version with a place in the stream.
    pub fn validate(&self) -> (r: Result<(), EventValidationError>)
        ensures
            match r {
                Ok(()) => self.version == EVENT_PROTOCOL_VERSION && self.sequence != 0,
                Err(EventValidationError::UnsupportedVersion(version)) => version == self.version
                    && self.version != EVENT_PROTOCOL_VERSION,
                Err(EventValidationError::ZeroSequence) => self.version == EVENT_PROTOCOL_VERSION
                    && self.sequence == 0,
            },
    {
        if self.version != EVENT_PROTOCOL_VERSION {
            return Err(EventValidationError::UnsupportedVersion(self.version));
        }
        if self.sequence == 0 {
            return Err(EventValidationError::ZeroSequence);
        }
        Ok(())
    }
}

} // verus!
