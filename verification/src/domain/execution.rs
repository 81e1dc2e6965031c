//! Receipts over the execution of a step and over the cleanup after it.

use vstd::prelude::*;
use super::identifiers::{digest_document, document_digest, EvidenceDigest, ProjectId};
use super::states::OperationPhase;
use crate::json::{
    canonical_bytes, int_option, is_canonical, jcs, json_array, json_bool, json_int, json_nat,
    json_object, json_optional, json_optional_int, json_optional_nat, json_optional_string,
    json_string, nat_option, no_members, optional_str, EncodingError, JsonArray, JsonObject,
};
use crate::text::{bounded_token, is_bounded_token, text_option, ByteClass};
use crate::unique_id::Uuid;

verus! {

pub const EXECUTION_TERMINAL_RECEIPT_SCHEMA_VERSION: u16 = 1;

pub const EXECUTION_CLEANUP_RECEIPT_SCHEMA_VERSION: u16 = 1;

const MAX_STEP_ID_BYTES: usize = 96;

const MAX_CLEANUP_ERROR_CODE_BYTES: usize = 96;

/// Why a receipt is refused.
#[derive(Clone, Copy, Debug, PartialEq, Eq, Structural)]
pub enum ExecutionReceiptError {
    InvalidDocument,
    DigestMismatch,
    CanonicalEncoding,
}

/// How a process ended.
#[derive(Clone, Copy, Debug, PartialEq, Eq, PartialOrd, Ord, Hash, Structural)]
pub enum ExecutionResultV1 {
    Succeeded,
    Failed,
    TimedOut,
    OomKilled,
    Cancelled,
}

impl ExecutionResultV1 {
    /// The name in documents.
    pub open spec fn name(self) -> Seq<char> {
        match self {
            ExecutionResultV1::Succeeded => "succeeded"@,
            ExecutionResultV1::Failed => "failed"@,
            ExecutionResultV1::TimedOut => "timed_out"@,
            ExecutionResultV1::OomKilled => "oom_killed"@,
            ExecutionResultV1::Cancelled => "cancelled"@,
        }
    }

    pub fn as_str(self) -> (r: &'static str)
        ensures
            r@ == self.name(),
    {
        match self {
            ExecutionResultV1::Succeeded => "succeeded",
            ExecutionResultV1::Failed => "failed",
            ExecutionResultV1::TimedOut => "timed_out",
            ExecutionResultV1::OomKilled => "oom_killed",
            ExecutionResultV1::Cancelled => "cancelled",
        }
    }
}

impl ExecutionResultV1 {
    /// The name of the variant.
    pub open spec fn variant_name(self) -> Seq<char> {
        match self {
            ExecutionResultV1::Succeeded => "Succeeded"@,
            ExecutionResultV1::Failed => "Failed"@,
            ExecutionResultV1::TimedOut => "TimedOut"@,
            ExecutionResultV1::OomKilled => "OomKilled"@,
            ExecutionResultV1::Cancelled => "Cancelled"@,
        }
    }

    pub fn variant_str(self) -> (r: &'static str)
        ensures
            r@ == self.variant_name(),
    {
        match self {
            ExecutionResultV1::Succeeded => "Succeeded",
            ExecutionResultV1::Failed => "Failed",
            ExecutionResultV1::TimedOut => "TimedOut",
            ExecutionResultV1::OomKilled => "OomKilled",
            ExecutionResultV1::Cancelled => "Cancelled",
        }
    }
}

/// How a process ended, in detail.
#[derive(Clone, Debug, PartialEq, Eq)]
pub struct ExecutionProcessOutcomeV1 {
    pub result: ExecutionResultV1,
    pub exit_code: Option<i32>,
    pub signal: Option<String>,
    pub timed_out: bool,
    pub oom_killed: bool,
}

/// A lowercase token of at most so many bytes.
pub open spec fn lower_token(text: Seq<char>, most: int) -> bool {
    bounded_token(text, ByteClass::LowerToken, 1, most)
}

impl ExecutionProcessOutcomeV1 {
    /// The detail agrees with the result: success is exit code zero without a signal, failure is
    /// no exit code zero, and the two flags are set by the results that they stand for and by no
    /// other.
    pub open spec fn valid(self) -> bool {
        &&& self.exit_code matches Some(code) ==> code >= 0
        &&& self.signal matches Some(signal) ==> lower_token(signal@, 32)
        &&& self.timed_out == (self.result is TimedOut)
        &&& self.oom_killed == (self.result is OomKilled)
        &&& self.result is Succeeded ==> self.exit_code == Some(0i32) && self.signal is None
        &&& self.result is Failed ==> self.exit_code != Some(0i32)
    }

    pub fn validate(&self) -> (r: Result<(), ExecutionReceiptError>)
        ensures
            match r {
                Ok(()) => self.valid(),
                Err(error) => !self.valid() && error is InvalidDocument,
            },
    {
        let code_valid = match self.exit_code {
            Some(code) => code >= 0,
            None => true,
        };
        let signal_valid = match &self.signal {
            Some(signal) => is_bounded_token(signal.as_str(), ByteClass::LowerToken, 1, 32),
            None => true,
        };
        if !code_valid || !signal_valid {
            return Err(ExecutionReceiptError::InvalidDocument);
        }
        let exited_zero = match self.exit_code {
            Some(code) => code == 0,
            None => false,
        };
        let valid = match self.result {
            ExecutionResultV1::Succeeded => exited_zero && self.signal.is_none() && !self.timed_out
                && !self.oom_killed,
            ExecutionResultV1::Failed => !self.timed_out && !self.oom_killed && !exited_zero,
            ExecutionResultV1::TimedOut => self.timed_out && !self.oom_killed,
            ExecutionResultV1::OomKilled => self.oom_killed && !self.timed_out,
            ExecutionResultV1::Cancelled => !self.timed_out && !self.oom_killed,
        };
        if valid {
            Ok(())
        } else {
            Err(ExecutionReceiptError::InvalidDocument)
        }
    }

    /// The document as JSON text.
    pub open spec fn json(self) -> Seq<char> {
        json_object(
            no_members()
                .push(("result"@, json_string(self.result.name())))
                .push(("exit_code"@, json_optional_int(match self.exit_code { Some(code) => Some(code as int), None => None })))
                .push(("signal"@, json_optional_string(text_option(self.signal))))
                .push(("timed_out"@, json_bool(self.timed_out)))
                .push(("oom_killed"@, json_bool(self.oom_killed))),
        )
    }

    pub fn to_json(&self) -> (r: String)
        ensures
            r@ == self.json(),
    {
        let mut object = JsonObject::new();
        object.text("result", self.result.as_str());
        let exit_code: Option<i64> = match self.exit_code {
            Some(code) => Some(code as i64),
            None => None,
        };
        object.optional_signed("exit_code", exit_code);
        object.optional_text("signal", optional_str(&self.signal));
        object.boolean("timed_out", self.timed_out);
        object.boolean("oom_killed", self.oom_killed);
        object.finish()
    }
}

/// How often memory limits were met.
#[derive(Clone, Copy, Debug, PartialEq, Eq, Structural)]
pub struct ExecutionMemoryEventsV1 {
    pub low: u64,
    pub high: u64,
    pub max: u64,
    pub oom: u64,
    pub oom_kill: u64,
    pub oom_group_kill: u64,
}

impl ExecutionMemoryEventsV1 {
    /// The document as JSON text.
    pub open spec fn json(self) -> Seq<char> {
        json_object(
            no_members()
                .push(("low"@, json_nat(self.low as nat)))
                .push(("high"@, json_nat(self.high as nat)))
                .push(("max"@, json_nat(self.max as nat)))
                .push(("oom"@, json_nat(self.oom as nat)))
                .push(("oom_kill"@, json_nat(self.oom_kill as nat)))
                .push(("oom_group_kill"@, json_nat(self.oom_group_kill as nat))),
        )
    }

    pub fn to_json(&self) -> (r: String)
        ensures
            r@ == self.json(),
    {
        let mut object = JsonObject::new();
        object.number("low", self.low);
        object.number("high", self.high);
        object.number("max", self.max);
        object.number("oom", self.oom);
        object.number("oom_kill", self.oom_kill);
        object.number("oom_group_kill", self.oom_group_kill);
        object.finish()
    }
}

impl Default for ExecutionMemoryEventsV1 {
    fn default() -> (r: ExecutionMemoryEventsV1)
        ensures
            r == (ExecutionMemoryEventsV1 {
                low: 0,
                high: 0,
                max: 0,
                oom: 0,
                oom_kill: 0,
                oom_group_kill: 0,
            }),
    {
        ExecutionMemoryEventsV1 { low: 0, high: 0, max: 0, oom: 0, oom_kill: 0, oom_group_kill: 0 }
    }
}

/// Bytes and operations of block devices.
#[derive(Clone, Copy, Debug, PartialEq, Eq, Structural)]
pub struct ExecutionIoUsageV1 {
    pub read_bytes: u64,
    pub write_bytes: u64,
    pub read_operations: u64,
    pub write_operations: u64,
}

impl ExecutionIoUsageV1 {
    /// The document as JSON text.
    pub open spec fn json(self) -> Seq<char> {
        json_object(
            no_members()
                .push(("read_bytes"@, json_nat(self.read_bytes as nat)))
                .push(("write_bytes"@, json_nat(self.write_bytes as nat)))
                .push(("read_operations"@, json_nat(self.read_operations as nat)))
                .push(("write_operations"@, json_nat(self.write_operations as nat))),
        )
    }

    pub fn to_json(&self) -> (r: String)
        ensures
            r@ == self.json(),
    {
        let mut object = JsonObject::new();
        object.number("read_bytes", self.read_bytes);
        object.number("write_bytes", self.write_bytes);
        object.number("read_operations", self.read_operations);
        object.number("write_operations", self.write_operations);
        object.finish()
    }
}

/// What a step used, as far as it was measured.
#[derive(Clone, Copy, Debug, PartialEq, Eq, Structural)]
pub struct ExecutionResourceUsageV1 {
    pub cpu_usage_usec: Option<u64>,
    pub memory_peak_bytes: Option<u64>,
    pub memory_events: Option<ExecutionMemoryEventsV1>,
    pub io: Option<ExecutionIoUsageV1>,
    pub tasks_peak: Option<u64>,
}

impl ExecutionResourceUsageV1 {
    /// The document as JSON text.
    pub open spec fn json(self) -> Seq<char> {
        json_object(
            no_members()
                .push(("cpu_usage_usec"@, json_optional_nat(nat_option(self.cpu_usage_usec))))
                .push(("memory_peak_bytes"@, json_optional_nat(nat_option(self.memory_peak_bytes))))
                .push(("memory_events"@, json_optional(match self.memory_events { Some(v) => Some(v.json()), None => None })))
                .push(("io"@, json_optional(match self.io { Some(v) => Some(v.json()), None => None })))
                .push(("tasks_peak"@, json_optional_nat(nat_option(self.tasks_peak)))),
        )
    }

    pub fn to_json(&self) -> (r: String)
        ensures
            r@ == self.json(),
    {
        let mut object = JsonObject::new();
        object.optional_number("cpu_usage_usec", self.cpu_usage_usec);
        object.optional_number("memory_peak_bytes", self.memory_peak_bytes);
        match &self.memory_events {
            Some(value) => {
                let value = value.to_json();
                object.raw("memory_events", value.as_str());
            },
            None => object.raw("memory_events", "null"),
        }
        match &self.io {
            Some(value) => {
                let value = value.to_json();
                object.raw("io", value.as_str());
            },
            None => object.raw("io", "null"),
        }
        object.optional_number("tasks_peak", self.tasks_peak);
        object.finish()
    }
}

impl Default for ExecutionResourceUsageV1 {
    fn default() -> (r: ExecutionResourceUsageV1)
        ensures
            r == (ExecutionResourceUsageV1 {
                cpu_usage_usec: None,
                memory_peak_bytes: None,
                memory_events: None,
                io: None,
                tasks_peak: None,
            }),
    {
        ExecutionResourceUsageV1 {
            cpu_usage_usec: None,
            memory_peak_bytes: None,
            memory_events: None,
            io: None,
            tasks_peak: None,
        }
    }
}

/// What a step left on disk, as far as it was measured.
#[derive(Clone, Copy, Debug, PartialEq, Eq, Structural)]
pub struct ExecutionStorageUsageV1 {
    pub scratch_before_bytes: Option<u64>,
    pub scratch_after_bytes: Option<u64>,
    pub scratch_peak_bytes: Option<u64>,
    pub cache_delta_bytes: Option<i64>,
    pub log_delta_bytes: Option<i64>,
    pub filesystem_available_after_bytes: Option<u64>,
    pub emergency_reserve_required_bytes: Option<u64>,
    pub emergency_reserve_remaining_bytes: Option<u64>,
    pub emergency_reserve_deficit_bytes: Option<u64>,
}

/// The excess of one number over another, zero where there is none.
pub open spec fn excess(a: u64, b: u64) -> int {
    if a > b {
        a - b
    } else {
        0
    }
}

impl ExecutionStorageUsageV1 {
    /// A peak is no lower than what was measured before and after, and the emergency reserve is
    /// told whole and in agreement with the free space, or not at all.
    pub open spec fn valid(self) -> bool {
        &&& (self.scratch_peak_bytes is Some && self.scratch_before_bytes is Some)
            ==> self.scratch_peak_bytes->0 >= self.scratch_before_bytes->0
        &&& (self.scratch_peak_bytes is Some && self.scratch_after_bytes is Some)
            ==> self.scratch_peak_bytes->0 >= self.scratch_after_bytes->0
        &&& match (
            self.filesystem_available_after_bytes,
            self.emergency_reserve_required_bytes,
            self.emergency_reserve_remaining_bytes,
            self.emergency_reserve_deficit_bytes,
        ) {
            (Some(available), Some(required), Some(remaining), Some(deficit)) => remaining == excess(
                available,
                required,
            ) && deficit == excess(required, available),
            (_, None, None, None) => true,
            _ => false,
        }
    }

    pub fn validate(&self) -> (r: Result<(), ExecutionReceiptError>)
        ensures
            match r {
                Ok(()) => self.valid(),
                Err(error) => !self.valid() && error is InvalidDocument,
            },
    {
        let below_before = match (self.scratch_peak_bytes, self.scratch_before_bytes) {
            (Some(peak), Some(before)) => peak < before,
            _ => false,
        };
        let below_after = match (self.scratch_peak_bytes, self.scratch_after_bytes) {
            (Some(peak), Some(after)) => peak < after,
            _ => false,
        };
        if below_before || below_after {
            return Err(ExecutionReceiptError::InvalidDocument);
        }
        let reserve_valid = match (
            self.filesystem_available_after_bytes,
            self.emergency_reserve_required_bytes,
            self.emergency_reserve_remaining_bytes,
            self.emergency_reserve_deficit_bytes,
        ) {
            (Some(available), Some(required), Some(remaining), Some(deficit)) => remaining
                == available.saturating_sub(required) && deficit == required.saturating_sub(
                available,
            ),
            (_, None, None, None) => true,
            _ => false,
        };
        if reserve_valid {
            Ok(())
        } else {
            Err(ExecutionReceiptError::InvalidDocument)
        }
    }

    /// The document as JSON text.
    pub open spec fn json(self) -> Seq<char> {
        json_object(
            no_members()
                .push(("scratch_before_bytes"@, json_optional_nat(nat_option(self.scratch_before_bytes))))
                .push(("scratch_after_bytes"@, json_optional_nat(nat_option(self.scratch_after_bytes))))
                .push(("scratch_peak_bytes"@, json_optional_nat(nat_option(self.scratch_peak_bytes))))
                .push(("cache_delta_bytes"@, json_optional_int(int_option(self.cache_delta_bytes))))
                .push(("log_delta_bytes"@, json_optional_int(int_option(self.log_delta_bytes))))
                .push(("filesystem_available_after_bytes"@, json_optional_nat(nat_option(self.filesystem_available_after_bytes))))
                .push(("emergency_reserve_required_bytes"@, json_optional_nat(nat_option(self.emergency_reserve_required_bytes))))
                .push(("emergency_reserve_remaining_bytes"@, json_optional_nat(nat_option(self.emergency_reserve_remaining_bytes))))
                .push(("emergency_reserve_deficit_bytes"@, json_optional_nat(nat_option(self.emergency_reserve_deficit_bytes)))),
        )
    }

    pub fn to_json(&self) -> (r: String)
        ensures
            r@ == self.json(),
    {
        let mut object = JsonObject::new();
        object.optional_number("scratch_before_bytes", self.scratch_before_bytes);
        object.optional_number("scratch_after_bytes", self.scratch_after_bytes);
        object.optional_number("scratch_peak_bytes", self.scratch_peak_bytes);
        object.optional_signed("cache_delta_bytes", self.cache_delta_bytes);
        object.optional_signed("log_delta_bytes", self.log_delta_bytes);
        object.optional_number("filesystem_available_after_bytes", self.filesystem_available_after_bytes);
        object.optional_number("emergency_reserve_required_bytes", self.emergency_reserve_required_bytes);
        object.optional_number("emergency_reserve_remaining_bytes", self.emergency_reserve_remaining_bytes);
        object.optional_number("emergency_reserve_deficit_bytes", self.emergency_reserve_deficit_bytes);
        object.finish()
    }
}

impl Default for ExecutionStorageUsageV1 {
    fn default() -> (r: ExecutionStorageUsageV1)
        ensures
            r == (ExecutionStorageUsageV1 {
                scratch_before_bytes: None,
                scratch_after_bytes: None,
                scratch_peak_bytes: None,
                cache_delta_bytes: None,
                log_delta_bytes: None,
                filesystem_available_after_bytes: None,
                emergency_reserve_required_bytes: None,
                emergency_reserve_remaining_bytes: None,
                emergency_reserve_deficit_bytes: None,
            }),
    {
        ExecutionStorageUsageV1 {
            scratch_before_bytes: None,
            scratch_after_bytes: None,
            scratch_peak_bytes: None,
            cache_delta_bytes: None,
            log_delta_bytes: None,
            filesystem_available_after_bytes: None,
            emergency_reserve_required_bytes: None,
            emergency_reserve_remaining_bytes: None,
            emergency_reserve_deficit_bytes: None,
        }
    }
}

/// A piece of evidence that is missing.
#[derive(Clone, Copy, Debug, PartialEq, Eq, PartialOrd, Ord, Hash, Structural)]
pub enum ExecutionEvidenceGapV1 {
    CpuUsage,
    MemoryPeak,
    MemoryEvents,
    Io,
    TasksPeak,
    ScratchBefore,
    ScratchAfter,
    ScratchPeak,
    CacheDelta,
    LogDelta,
    FilesystemAvailable,
    EmergencyReserve,
    ProcessStatus,
}

impl ExecutionEvidenceGapV1 {
    /// The name in documents.
    pub open spec fn name(self) -> Seq<char> {
        match self {
            ExecutionEvidenceGapV1::CpuUsage => "cpu_usage"@,
            ExecutionEvidenceGapV1::MemoryPeak => "memory_peak"@,
            ExecutionEvidenceGapV1::MemoryEvents => "memory_events"@,
            ExecutionEvidenceGapV1::Io => "io"@,
            ExecutionEvidenceGapV1::TasksPeak => "tasks_peak"@,
            ExecutionEvidenceGapV1::ScratchBefore => "scratch_before"@,
            ExecutionEvidenceGapV1::ScratchAfter => "scratch_after"@,
            ExecutionEvidenceGapV1::ScratchPeak => "scratch_peak"@,
            ExecutionEvidenceGapV1::CacheDelta => "cache_delta"@,
            ExecutionEvidenceGapV1::LogDelta => "log_delta"@,
            ExecutionEvidenceGapV1::FilesystemAvailable => "filesystem_available"@,
            ExecutionEvidenceGapV1::EmergencyReserve => "emergency_reserve"@,
            ExecutionEvidenceGapV1::ProcessStatus => "process_status"@,
        }
    }

    pub fn as_str(self) -> (r: &'static str)
        ensures
            r@ == self.name(),
    {
        match self {
            ExecutionEvidenceGapV1::CpuUsage => "cpu_usage",
            ExecutionEvidenceGapV1::MemoryPeak => "memory_peak",
            ExecutionEvidenceGapV1::MemoryEvents => "memory_events",
            ExecutionEvidenceGapV1::Io => "io",
            ExecutionEvidenceGapV1::TasksPeak => "tasks_peak",
            ExecutionEvidenceGapV1::ScratchBefore => "scratch_before",
            ExecutionEvidenceGapV1::ScratchAfter => "scratch_after",
            ExecutionEvidenceGapV1::ScratchPeak => "scratch_peak",
            ExecutionEvidenceGapV1::CacheDelta => "cache_delta",
            ExecutionEvidenceGapV1::LogDelta => "log_delta",
            ExecutionEvidenceGapV1::FilesystemAvailable => "filesystem_available",
            ExecutionEvidenceGapV1::EmergencyReserve => "emergency_reserve",
            ExecutionEvidenceGapV1::ProcessStatus => "process_status",
        }
    }
}

impl ExecutionEvidenceGapV1 {
    pub fn label(self) -> (r: &'static str)
        ensures
            r@ == self.name(),
    {
        self.as_str()
    }

    /// The place in the order in which gaps are listed.
    pub open spec fn rank(self) -> int {
        match self {
            ExecutionEvidenceGapV1::CpuUsage => 0,
            ExecutionEvidenceGapV1::MemoryPeak => 1,
            ExecutionEvidenceGapV1::MemoryEvents => 2,
            ExecutionEvidenceGapV1::Io => 3,
            ExecutionEvidenceGapV1::TasksPeak => 4,
            ExecutionEvidenceGapV1::ScratchBefore => 5,
            ExecutionEvidenceGapV1::ScratchAfter => 6,
            ExecutionEvidenceGapV1::ScratchPeak => 7,
            ExecutionEvidenceGapV1::CacheDelta => 8,
            ExecutionEvidenceGapV1::LogDelta => 9,
            ExecutionEvidenceGapV1::FilesystemAvailable => 10,
            ExecutionEvidenceGapV1::EmergencyReserve => 11,
            ExecutionEvidenceGapV1::ProcessStatus => 12,
        }
    }

    /// Whether the evidence is missing.
    pub open spec fn missing(
        self,
        process: ExecutionProcessOutcomeV1,
        resources: ExecutionResourceUsageV1,
        storage: ExecutionStorageUsageV1,
    ) -> bool {
        match self {
            ExecutionEvidenceGapV1::CpuUsage => resources.cpu_usage_usec is None,
            ExecutionEvidenceGapV1::MemoryPeak => resources.memory_peak_bytes is None,
            ExecutionEvidenceGapV1::MemoryEvents => resources.memory_events is None,
            ExecutionEvidenceGapV1::Io => resources.io is None,
            ExecutionEvidenceGapV1::TasksPeak => resources.tasks_peak is None,
            ExecutionEvidenceGapV1::ScratchBefore => storage.scratch_before_bytes is None,
            ExecutionEvidenceGapV1::ScratchAfter => storage.scratch_after_bytes is None,
            ExecutionEvidenceGapV1::ScratchPeak => storage.scratch_peak_bytes is None,
            ExecutionEvidenceGapV1::CacheDelta => storage.cache_delta_bytes is None,
            ExecutionEvidenceGapV1::LogDelta => storage.log_delta_bytes is None,
            ExecutionEvidenceGapV1::FilesystemAvailable => storage.filesystem_available_after_bytes is None,
            ExecutionEvidenceGapV1::EmergencyReserve => storage.emergency_reserve_required_bytes is None
                || storage.emergency_reserve_remaining_bytes is None
                || storage.emergency_reserve_deficit_bytes is None,
            ExecutionEvidenceGapV1::ProcessStatus => !(process.result is Succeeded)
                && process.exit_code is None && process.signal is None,
        }
    }

    fn is_missing(
        self,
        process: &ExecutionProcessOutcomeV1,
        resources: &ExecutionResourceUsageV1,
        storage: &ExecutionStorageUsageV1,
    ) -> (r: bool)
        ensures
            r == self.missing(*process, *resources, *storage),
    {
        match self {
            ExecutionEvidenceGapV1::CpuUsage => resources.cpu_usage_usec.is_none(),
            ExecutionEvidenceGapV1::MemoryPeak => resources.memory_peak_bytes.is_none(),
            ExecutionEvidenceGapV1::MemoryEvents => resources.memory_events.is_none(),
            ExecutionEvidenceGapV1::Io => resources.io.is_none(),
            ExecutionEvidenceGapV1::TasksPeak => resources.tasks_peak.is_none(),
            ExecutionEvidenceGapV1::ScratchBefore => storage.scratch_before_bytes.is_none(),
            ExecutionEvidenceGapV1::ScratchAfter => storage.scratch_after_bytes.is_none(),
            ExecutionEvidenceGapV1::ScratchPeak => storage.scratch_peak_bytes.is_none(),
            ExecutionEvidenceGapV1::CacheDelta => storage.cache_delta_bytes.is_none(),
            ExecutionEvidenceGapV1::LogDelta => storage.log_delta_bytes.is_none(),
            ExecutionEvidenceGapV1::FilesystemAvailable => storage.filesystem_available_after_bytes.is_none(),
            ExecutionEvidenceGapV1::EmergencyReserve => storage.emergency_reserve_required_bytes.is_none()
                || storage.emergency_reserve_remaining_bytes.is_none()
                || storage.emergency_reserve_deficit_bytes.is_none(),
            ExecutionEvidenceGapV1::ProcessStatus => process.result != ExecutionResultV1::Succeeded
                && process.exit_code.is_none() && process.signal.is_none(),
        }
    }
}

/// Every gap there can be, in order.
pub open spec fn all_execution_gaps() -> Seq<ExecutionEvidenceGapV1> {
    seq![
        ExecutionEvidenceGapV1::CpuUsage,
        ExecutionEvidenceGapV1::MemoryPeak,
        ExecutionEvidenceGapV1::MemoryEvents,
        ExecutionEvidenceGapV1::Io,
        ExecutionEvidenceGapV1::TasksPeak,
        ExecutionEvidenceGapV1::ScratchBefore,
        ExecutionEvidenceGapV1::ScratchAfter,
        ExecutionEvidenceGapV1::ScratchPeak,
        ExecutionEvidenceGapV1::CacheDelta,
        ExecutionEvidenceGapV1::LogDelta,
        ExecutionEvidenceGapV1::FilesystemAvailable,
        ExecutionEvidenceGapV1::EmergencyReserve,
        ExecutionEvidenceGapV1::ProcessStatus,
    ]
}

/// The gaps that are there, in order.
pub open spec fn execution_gaps(
    process: ExecutionProcessOutcomeV1,
    resources: ExecutionResourceUsageV1,
    storage: ExecutionStorageUsageV1,
) -> Seq<ExecutionEvidenceGapV1> {
    all_execution_gaps().filter(
        |gap: ExecutionEvidenceGapV1| gap.missing(process, resources, storage),
    )
}

pub fn expected_execution_gaps(
    process: &ExecutionProcessOutcomeV1,
    resources: &ExecutionResourceUsageV1,
    storage: &ExecutionStorageUsageV1,
) -> (gaps: Vec<ExecutionEvidenceGapV1>)
    ensures
        gaps@ == execution_gaps(*process, *resources, *storage),
{
    let all = vec![
        ExecutionEvidenceGapV1::CpuUsage,
        ExecutionEvidenceGapV1::MemoryPeak,
        ExecutionEvidenceGapV1::MemoryEvents,
        ExecutionEvidenceGapV1::Io,
        ExecutionEvidenceGapV1::TasksPeak,
        ExecutionEvidenceGapV1::ScratchBefore,
        ExecutionEvidenceGapV1::ScratchAfter,
        ExecutionEvidenceGapV1::ScratchPeak,
        ExecutionEvidenceGapV1::CacheDelta,
        ExecutionEvidenceGapV1::LogDelta,
        ExecutionEvidenceGapV1::FilesystemAvailable,
        ExecutionEvidenceGapV1::EmergencyReserve,
        ExecutionEvidenceGapV1::ProcessStatus,
    ];
    let mut gaps: Vec<ExecutionEvidenceGapV1> = Vec::new();
    let ghost missing = |gap: ExecutionEvidenceGapV1| gap.missing(*process, *resources, *storage);
    let mut i: usize = 0;
    proof {
        reveal(Seq::filter);
        assert(all@ =~= all_execution_gaps());
    }
    while i < all.len()
        invariant
            i <= all.len(),
            all@ == all_execution_gaps(),
            missing == (|gap: ExecutionEvidenceGapV1| gap.missing(*process, *resources, *storage)),
            gaps@ == all@.take(i as int).filter(missing),
        decreases all.len() - i,
    {
        proof {
            reveal(Seq::filter);
            assert(all@.take(i + 1).drop_last() =~= all@.take(i as int));
        }
        if all[i].is_missing(process, resources, storage) {
            gaps.push(all[i]);
        }
        i += 1;
    }
    assert(all@.take(i as int) =~= all@);
    gaps
}

proof fn lemma_filter_keeps_rank(
    gaps: Seq<ExecutionEvidenceGapV1>,
    keep: spec_fn(ExecutionEvidenceGapV1) -> bool,
)
    requires
        forall|i: int, j: int| 0 <= i < j < gaps.len() ==> gaps[i].rank() < gaps[j].rank(),
    ensures
        forall|i: int, j: int|
            0 <= i < j < gaps.filter(keep).len() ==> gaps.filter(keep)[i].rank() < gaps.filter(
                keep,
            )[j].rank(),
        forall|i: int|
            0 <= i < gaps.filter(keep).len() ==> #[trigger] gaps.filter(keep)[i].rank()
                <= gaps.last().rank(),
    decreases gaps.len(),
{
    reveal(Seq::filter);
    if gaps.len() > 0 {
        lemma_filter_keeps_rank(gaps.drop_last(), keep);
        let rest = gaps.drop_last().filter(keep);
        if gaps.len() > 1 {
            assert(gaps.drop_last().last() == gaps[gaps.len() - 2]);
        }
        assert forall|i: int| 0 <= i < rest.len() implies #[trigger] rest[i].rank()
            < gaps.last().rank() by {
            assert(gaps.drop_last().len() > 0);
        }
    }
}

/// Gaps are listed in their order, and none is listed twice.
pub proof fn law_gaps_are_strictly_ordered(
    process: ExecutionProcessOutcomeV1,
    resources: ExecutionResourceUsageV1,
    storage: ExecutionStorageUsageV1,
)
    ensures
        forall|i: int, j: int|
            0 <= i < j < execution_gaps(process, resources, storage).len() ==> execution_gaps(
                process,
                resources,
                storage,
            )[i].rank() < execution_gaps(process, resources, storage)[j].rank(),
{
    lemma_filter_keeps_rank(
        all_execution_gaps(),
        |gap: ExecutionEvidenceGapV1| gap.missing(process, resources, storage),
    );
}

/// Whether two lists of gaps are equal.
pub fn same_gaps(a: &Vec<ExecutionEvidenceGapV1>, b: &Vec<ExecutionEvidenceGapV1>) -> (same: bool)
    ensures
        same == (a@ == b@),
{
    if a.len() != b.len() {
        return false;
    }
    let mut i: usize = 0;
    while i < a.len()
        invariant
            i <= a.len(),
            a.len() == b.len(),
            forall|k: int| 0 <= k < i ==> a@[k] == b@[k],
        decreases a.len() - i,
    {
        if a[i] != b[i] {
            assert(a@[i as int] != b@[i as int]);
            return false;
        }
        i += 1;
    }
    assert(a@ =~= b@);
    true
}

/// Gaps as a JSON array of their names.
pub open spec fn gaps_json(values: Seq<ExecutionEvidenceGapV1>) -> Seq<char> {
    json_array(values.map_values(|value: ExecutionEvidenceGapV1| json_string(value.name())))
}

pub fn gaps_json_text(values: &Vec<ExecutionEvidenceGapV1>) -> (r: String)
    ensures
        r@ == gaps_json(values@),
{
    let mut array = JsonArray::new();
    let mut i: usize = 0;
    while i < values.len()
        invariant
            i <= values.len(),
            array.wf(),
            array@ == values@.take(i as int).map_values(|value: ExecutionEvidenceGapV1| json_string(value.name())),
        decreases values.len() - i,
    {
        array.text(values[i].as_str());
        i += 1;
        assert(array@ =~= values@.take(i as int).map_values(
            |value: ExecutionEvidenceGapV1| json_string(value.name()),
        ));
    }
    assert(values@.take(i as int) =~= values@);
    array.finish()
}

/// The milliseconds from one time to another, where both can be times.
pub open spec fn ordered_times(started_at_ms: i64, finished_at_ms: i64) -> bool {
    0 <= started_at_ms <= finished_at_ms
}

fn elapsed_ms(started_at_ms: i64, finished_at_ms: i64) -> (r: Result<u64, ExecutionReceiptError>)
    ensures
        match r {
            Ok(elapsed) => ordered_times(started_at_ms, finished_at_ms) && elapsed == finished_at_ms
                - started_at_ms,
            Err(error) => !ordered_times(started_at_ms, finished_at_ms) && error is InvalidDocument,
        },
{
    if started_at_ms < 0 || finished_at_ms < started_at_ms {
        return Err(ExecutionReceiptError::InvalidDocument);
    }
    Ok((finished_at_ms - started_at_ms) as u64)
}

/// The record of a step that ran, sealed by a digest.
#[derive(Clone, Debug, PartialEq, Eq)]
pub struct ExecutionTerminalReceiptV1 {
    pub schema_version: u16,
    pub request_id: Uuid,
    pub attempt_id: Uuid,
    pub start_evidence_digest: EvidenceDigest,
    pub project_id: ProjectId,
    pub phase: OperationPhase,
    pub step_id: String,
    pub sequence: u16,
    pub started_at_ms: i64,
    pub finished_at_ms: i64,
    pub duration_ms: u64,
    pub process: ExecutionProcessOutcomeV1,
    pub resources: ExecutionResourceUsageV1,
    pub storage: ExecutionStorageUsageV1,
    pub evidence_gaps: Vec<ExecutionEvidenceGapV1>,
    pub receipt_digest: EvidenceDigest,
}

impl ExecutionTerminalReceiptV1 {
    /// The document as JSON text.
    pub open spec fn json(self) -> Seq<char> {
        json_object(
            no_members()
                .push(("schema_version"@, json_nat(self.schema_version as nat)))
                .push(("request_id"@, json_string(self.request_id.text())))
                .push(("attempt_id"@, json_string(self.attempt_id.text())))
                .push(("start_evidence_digest"@, json_string(self.start_evidence_digest@)))
                .push(("project_id"@, json_string(self.project_id@)))
                .push(("phase"@, json_string(self.phase.name())))
                .push(("step_id"@, json_string(self.step_id@)))
                .push(("sequence"@, json_nat(self.sequence as nat)))
                .push(("started_at_ms"@, json_int(self.started_at_ms as int)))
                .push(("finished_at_ms"@, json_int(self.finished_at_ms as int)))
                .push(("duration_ms"@, json_nat(self.duration_ms as nat)))
                .push(("process"@, self.process.json()))
                .push(("resources"@, self.resources.json()))
                .push(("storage"@, self.storage.json()))
                .push(("evidence_gaps"@, gaps_json(self.evidence_gaps@)))
                .push(("receipt_digest"@, json_string(self.receipt_digest@))),
        )
    }

    pub fn to_json(&self) -> (r: String)
        ensures
            r@ == self.json(),
    {
        let mut object = JsonObject::new();
        object.number("schema_version", self.schema_version as u64);
        let request_id = self.request_id.to_text();
        object.text("request_id", request_id.as_str());
        let attempt_id = self.attempt_id.to_text();
        object.text("attempt_id", attempt_id.as_str());
        object.text("start_evidence_digest", self.start_evidence_digest.as_str());
        object.text("project_id", self.project_id.as_str());
        object.text("phase", self.phase.as_str());
        object.text("step_id", self.step_id.as_str());
        object.number("sequence", self.sequence as u64);
        object.signed("started_at_ms", self.started_at_ms);
        object.signed("finished_at_ms", self.finished_at_ms);
        object.number("duration_ms", self.duration_ms);
        let process = self.process.to_json();
        object.raw("process", process.as_str());
        let resources = self.resources.to_json();
        object.raw("resources", resources.as_str());
        let storage = self.storage.to_json();
        object.raw("storage", storage.as_str());
        let evidence_gaps = gaps_json_text(&self.evidence_gaps);
        object.raw("evidence_gaps", evidence_gaps.as_str());
        object.text("receipt_digest", self.receipt_digest.as_str());
        object.finish()
    }

    /// What the digest is taken over.
    pub open spec fn sealed_json(self) -> Seq<char> {
        json_object(
            no_members()
                .push(("purpose"@, json_string("rdashboard.execution-terminal-receipt.v1"@)))
                .push(("schema_version"@, json_nat(self.schema_version as nat)))
                .push(("request_id"@, json_string(self.request_id.text())))
                .push(("attempt_id"@, json_string(self.attempt_id.text())))
                .push(("start_evidence_digest"@, json_string(self.start_evidence_digest@)))
                .push(("project_id"@, json_string(self.project_id@)))
                .push(("phase"@, json_string(self.phase.name())))
                .push(("step_id"@, json_string(self.step_id@)))
                .push(("sequence"@, json_nat(self.sequence as nat)))
                .push(("started_at_ms"@, json_int(self.started_at_ms as int)))
                .push(("finished_at_ms"@, json_int(self.finished_at_ms as int)))
                .push(("duration_ms"@, json_nat(self.duration_ms as nat)))
                .push(("process"@, self.process.json()))
                .push(("resources"@, self.resources.json()))
                .push(("storage"@, self.storage.json()))
                .push(("evidence_gaps"@, gaps_json(self.evidence_gaps@))),
        )
    }

    fn to_sealed_json(&self) -> (r: String)
        ensures
            r@ == self.sealed_json(),
    {
        let mut object = JsonObject::new();
        object.text("purpose", "rdashboard.execution-terminal-receipt.v1");
        object.number("schema_version", self.schema_version as u64);
        let request_id = self.request_id.to_text();
        object.text("request_id", request_id.as_str());
        let attempt_id = self.attempt_id.to_text();
        object.text("attempt_id", attempt_id.as_str());
        object.text("start_evidence_digest", self.start_evidence_digest.as_str());
        object.text("project_id", self.project_id.as_str());
        object.text("phase", self.phase.as_str());
        object.text("step_id", self.step_id.as_str());
        object.number("sequence", self.sequence as u64);
        object.signed("started_at_ms", self.started_at_ms);
        object.signed("finished_at_ms", self.finished_at_ms);
        object.number("duration_ms", self.duration_ms);
        let process = self.process.to_json();
        object.raw("process", process.as_str());
        let resources = self.resources.to_json();
        object.raw("resources", resources.as_str());
        let storage = self.storage.to_json();
        object.raw("storage", storage.as_str());
        let evidence_gaps = gaps_json_text(&self.evidence_gaps);
        object.raw("evidence_gaps", evidence_gaps.as_str());
        object.finish()
    }

    /// Everything but the digest is in order.
    pub open spec fn well_formed(self) -> bool {
        &&& self.schema_version == EXECUTION_TERMINAL_RECEIPT_SCHEMA_VERSION
        &&& !self.request_id.nil()
        &&& !self.attempt_id.nil()
        &&& self.sequence != 0
        &&& lower_token(self.step_id@, 96)
        &&& ordered_times(self.started_at_ms, self.finished_at_ms)
        &&& self.duration_ms == self.finished_at_ms - self.started_at_ms
        &&& self.process.valid()
        &&& self.storage.valid()
        &&& self.evidence_gaps@ == execution_gaps(self.process, self.resources, self.storage)
    }

    /// The digest is the one of what it seals.
    pub open spec fn sealed(self) -> bool {
        document_digest(self.sealed_json()) == Some(self.receipt_digest@)
    }

    /// What is wrong with a receipt, its form before its digest.
    pub open spec fn fault(self) -> Option<ExecutionReceiptError> {
        if !self.well_formed() {
            Some(ExecutionReceiptError::InvalidDocument)
        } else if document_digest(self.sealed_json()) is None {
            Some(ExecutionReceiptError::CanonicalEncoding)
        } else if !self.sealed() {
            Some(ExecutionReceiptError::DigestMismatch)
        } else {
            None
        }
    }

    fn calculate_digest(&self) -> (r: Result<EvidenceDigest, EncodingError>)
        ensures
            match r {
                Ok(digest) => document_digest(self.sealed_json()) == Some(digest@),
                Err(_) => document_digest(self.sealed_json()) is None,
            },
    {
        let text = self.to_sealed_json();
        digest_document(text.as_str())
    }

    fn is_well_formed(&self) -> (r: bool)
        ensures
            r == self.well_formed(),
    {
        if self.schema_version != EXECUTION_TERMINAL_RECEIPT_SCHEMA_VERSION
            || self.request_id.is_nil() || self.attempt_id.is_nil() || self.sequence == 0
            || !is_bounded_token(self.step_id.as_str(), ByteClass::LowerToken, 1, MAX_STEP_ID_BYTES) {
            return false;
        }
        match elapsed_ms(self.started_at_ms, self.finished_at_ms) {
            Err(_) => false,
            Ok(elapsed) => {
                self.duration_ms == elapsed && self.process.validate().is_ok()
                    && self.storage.validate().is_ok() && same_gaps(
                    &self.evidence_gaps,
                    &expected_execution_gaps(&self.process, &self.resources, &self.storage),
                )
            },
        }
    }

    pub fn validate(&self) -> (r: Result<(), ExecutionReceiptError>)
        ensures
            match r {
                Ok(()) => self.fault() is None,
                Err(error) => self.fault() == Some(error),
            },
    {
        if !self.is_well_formed() {
            return Err(ExecutionReceiptError::InvalidDocument);
        }
        match self.calculate_digest() {
            Err(_) => Err(ExecutionReceiptError::CanonicalEncoding),
            Ok(digest) => if self.receipt_digest == digest {
                Ok(())
            } else {
                Err(ExecutionReceiptError::DigestMismatch)
            },
        }
    }

    /// The canonical bytes of a valid receipt.
    pub fn canonical_bytes(&self) -> (r: Result<Vec<u8>, ExecutionReceiptError>)
        ensures
            match r {
                Ok(bytes) => self.fault() is None && jcs(self.json()) == Some(bytes@),
                Err(error) => if self.fault() is Some {
                    self.fault() == Some(error)
                } else {
                    jcs(self.json()) is None && error is CanonicalEncoding
                },
            },
    {
        match self.validate() {
            Err(error) => Err(error),
            Ok(()) => {
                let text = self.to_json();
                match canonical_bytes(text.as_str()) {
                    Ok(bytes) => Ok(bytes),
                    Err(_) => Err(ExecutionReceiptError::CanonicalEncoding),
                }
            },
        }
    }

    /// Accepts a receipt that was read from some bytes, where the bytes are its canonical form and
    /// it is valid.
    pub fn decode_canonical(
        parsed: ExecutionTerminalReceiptV1,
        bytes: &[u8],
    ) -> (r: Result<ExecutionTerminalReceiptV1, ExecutionReceiptError>)
        ensures
            match r {
                Ok(receipt) => receipt == parsed && jcs(parsed.json()) == Some(bytes@)
                    && parsed.fault() is None,
                Err(error) => match jcs(parsed.json()) {
                    None => error is CanonicalEncoding,
                    Some(canonical) => if canonical != bytes@ {
                        error is InvalidDocument
                    } else {
                        parsed.fault() == Some(error)
                    },
                },
            },
    {
        let text = parsed.to_json();
        match is_canonical(text.as_str(), bytes) {
            Err(_) => Err(ExecutionReceiptError::CanonicalEncoding),
            Ok(false) => Err(ExecutionReceiptError::InvalidDocument),
            Ok(true) => match parsed.validate() {
                Err(error) => Err(error),
                Ok(()) => Ok(parsed),
            },
        }
    }

    /// The receipt says what it is made of.
    pub open spec fn describes(
        self,
        request_id: Uuid,
        attempt_id: Uuid,
        start_evidence_digest: EvidenceDigest,
        project_id: ProjectId,
        phase: OperationPhase,
        step_id: String,
        sequence: u16,
        started_at_ms: i64,
        finished_at_ms: i64,
        process: ExecutionProcessOutcomeV1,
        resources: ExecutionResourceUsageV1,
        storage: ExecutionStorageUsageV1,
    ) -> bool {
        &&& self.schema_version == EXECUTION_TERMINAL_RECEIPT_SCHEMA_VERSION
        &&& self.request_id == request_id
        &&& self.attempt_id == attempt_id
        &&& self.start_evidence_digest == start_evidence_digest
        &&& self.project_id == project_id
        &&& self.phase == phase
        &&& self.step_id == step_id
        &&& self.sequence == sequence
        &&& self.started_at_ms == started_at_ms
        &&& self.finished_at_ms == finished_at_ms
        &&& self.process == process
        &&& self.resources == resources
        &&& self.storage == storage
        &&& self.duration_ms == finished_at_ms - started_at_ms
        &&& self.evidence_gaps@ == execution_gaps(process, resources, storage)
    }

    /// Fails where the times are out of order, where the receipt has no canonical form, and where
    /// it would not be valid, in this order.
    pub fn new(
        request_id: Uuid,
        attempt_id: Uuid,
        start_evidence_digest: EvidenceDigest,
        project_id: ProjectId,
        phase: OperationPhase,
        step_id: String,
        sequence: u16,
        started_at_ms: i64,
        finished_at_ms: i64,
        process: ExecutionProcessOutcomeV1,
        resources: ExecutionResourceUsageV1,
        storage: ExecutionStorageUsageV1,
    ) -> (r: Result<ExecutionTerminalReceiptV1, ExecutionReceiptError>)
        ensures
            match r {
                Ok(receipt) => receipt.describes(request_id, attempt_id, start_evidence_digest, project_id, phase, step_id, sequence, started_at_ms, finished_at_ms, process, resources, storage) && receipt.fault() is None,
                Err(error) => if !ordered_times(started_at_ms, finished_at_ms) {
                    error is InvalidDocument
                } else {
                    forall|receipt: ExecutionTerminalReceiptV1|
                    #[trigger] receipt.describes(request_id, attempt_id, start_evidence_digest, project_id, phase, step_id, sequence, started_at_ms, finished_at_ms, process, resources, storage) ==> if document_digest(
                        receipt.sealed_json(),
                    ) is None {
                        error is CanonicalEncoding
                    } else {
                        error is InvalidDocument && !receipt.well_formed()
                    }
                },
            },
    {
        let duration_ms = match elapsed_ms(started_at_ms, finished_at_ms) {
            Ok(duration_ms) => duration_ms,
            Err(error) => return Err(error),
        };
        let evidence_gaps = expected_execution_gaps(&process, &resources, &storage);
        let receipt_digest = start_evidence_digest.clone();
        let mut receipt = ExecutionTerminalReceiptV1 {
            schema_version: EXECUTION_TERMINAL_RECEIPT_SCHEMA_VERSION,
            request_id,
            attempt_id,
            start_evidence_digest,
            project_id,
            phase,
            step_id,
            sequence,
            started_at_ms,
            finished_at_ms,
            duration_ms,
            process,
            resources,
            storage,
            evidence_gaps,
            receipt_digest,
        };
        assert(receipt.describes(request_id, attempt_id, start_evidence_digest, project_id, phase, step_id, sequence, started_at_ms, finished_at_ms, process, resources, storage));
        match receipt.calculate_digest() {
            Err(_) => Err(ExecutionReceiptError::CanonicalEncoding),
            Ok(digest) => {
                let ghost unsealed = receipt;
                receipt.receipt_digest = digest;
                assert(receipt.sealed_json() == unsealed.sealed_json());
                match receipt.validate() {
                    Err(error) => Err(error),
                    Ok(()) => Ok(receipt),
                }
            },
        }
    }
}

/// Whether anything of a step is left.
#[derive(Clone, Copy, Debug, PartialEq, Eq, Hash, Structural)]
pub enum ExecutionCleanupStateV1 {
    Complete,
    Pending,
}

impl ExecutionCleanupStateV1 {
    /// The name in documents.
    pub open spec fn name(self) -> Seq<char> {
        match self {
            ExecutionCleanupStateV1::Complete => "complete"@,
            ExecutionCleanupStateV1::Pending => "pending"@,
        }
    }

    pub fn as_str(self) -> (r: &'static str)
        ensures
            r@ == self.name(),
    {
        match self {
            ExecutionCleanupStateV1::Complete => "complete",
            ExecutionCleanupStateV1::Pending => "pending",
        }
    }
}

/// A measurement of a cleanup that is missing.
#[derive(Clone, Copy, Debug, PartialEq, Eq, PartialOrd, Ord, Hash, Structural)]
pub enum ExecutionCleanupEvidenceGapV1 {
    ScratchRemoved,
    FilesystemAvailable,
}

impl ExecutionCleanupEvidenceGapV1 {
    /// The name in documents.
    pub open spec fn name(self) -> Seq<char> {
        match self {
            ExecutionCleanupEvidenceGapV1::ScratchRemoved => "scratch_removed"@,
            ExecutionCleanupEvidenceGapV1::FilesystemAvailable => "filesystem_available"@,
        }
    }

    pub fn as_str(self) -> (r: &'static str)
        ensures
            r@ == self.name(),
    {
        match self {
            ExecutionCleanupEvidenceGapV1::ScratchRemoved => "scratch_removed",
            ExecutionCleanupEvidenceGapV1::FilesystemAvailable => "filesystem_available",
        }
    }
}

/// Gaps as a JSON array of their names.
pub open spec fn cleanup_gaps_json(values: Seq<ExecutionCleanupEvidenceGapV1>) -> Seq<char> {
    json_array(values.map_values(|value: ExecutionCleanupEvidenceGapV1| json_string(value.name())))
}

fn cleanup_gaps_json_text(values: &Vec<ExecutionCleanupEvidenceGapV1>) -> (r: String)
    ensures
        r@ == cleanup_gaps_json(values@),
{
    let mut array = JsonArray::new();
    let mut i: usize = 0;
    while i < values.len()
        invariant
            i <= values.len(),
            array.wf(),
            array@ == values@.take(i as int).map_values(|value: ExecutionCleanupEvidenceGapV1| json_string(value.name())),
        decreases values.len() - i,
    {
        array.text(values[i].as_str());
        i += 1;
        assert(array@ =~= values@.take(i as int).map_values(
            |value: ExecutionCleanupEvidenceGapV1| json_string(value.name()),
        ));
    }
    assert(values@.take(i as int) =~= values@);
    array.finish()
}

/// The measurements of a cleanup that are missing, in order.
pub open spec fn cleanup_gaps(
    scratch_removed_bytes: Option<u64>,
    filesystem_available_after_bytes: Option<u64>,
) -> Seq<ExecutionCleanupEvidenceGapV1> {
    (if scratch_removed_bytes is None {
        seq![ExecutionCleanupEvidenceGapV1::ScratchRemoved]
    } else {
        seq![]
    }) + (if filesystem_available_after_bytes is None {
        seq![ExecutionCleanupEvidenceGapV1::FilesystemAvailable]
    } else {
        seq![]
    })
}

fn expected_cleanup_gaps(
    scratch_removed_bytes: Option<u64>,
    filesystem_available_after_bytes: Option<u64>,
) -> (gaps: Vec<ExecutionCleanupEvidenceGapV1>)
    ensures
        gaps@ == cleanup_gaps(scratch_removed_bytes, filesystem_available_after_bytes),
{
    let mut gaps: Vec<ExecutionCleanupEvidenceGapV1> = Vec::new();
    if scratch_removed_bytes.is_none() {
        gaps.push(ExecutionCleanupEvidenceGapV1::ScratchRemoved);
    }
    if filesystem_available_after_bytes.is_none() {
        gaps.push(ExecutionCleanupEvidenceGapV1::FilesystemAvailable);
    }
    assert(gaps@ =~= cleanup_gaps(scratch_removed_bytes, filesystem_available_after_bytes));
    gaps
}

fn same_cleanup_gaps(
    a: &Vec<ExecutionCleanupEvidenceGapV1>,
    b: &Vec<ExecutionCleanupEvidenceGapV1>,
) -> (same: bool)
    ensures
        same == (a@ == b@),
{
    if a.len() != b.len() {
        return false;
    }
    let mut i: usize = 0;
    while i < a.len()
        invariant
            i <= a.len(),
            a.len() == b.len(),
            forall|k: int| 0 <= k < i ==> a@[k] == b@[k],
        decreases a.len() - i,
    {
        if a[i] != b[i] {
            assert(a@[i as int] != b@[i as int]);
            return false;
        }
        i += 1;
    }
    assert(a@ =~= b@);
    true
}

/// The record of the cleanup after a step, sealed by a digest.
#[derive(Clone, Debug, PartialEq, Eq)]
pub struct ExecutionCleanupReceiptV1 {
    pub schema_version: u16,
    pub attempt_id: Uuid,
    pub terminal_receipt_digest: EvidenceDigest,
    pub state: ExecutionCleanupStateV1,
    pub unit_collected: bool,
    pub scratch_removed_bytes: Option<u64>,
    pub remaining_transient_items: u32,
    pub filesystem_available_after_bytes: Option<u64>,
    pub evidence_gaps: Vec<ExecutionCleanupEvidenceGapV1>,
    pub error_code: Option<String>,
    pub completed_at_ms: i64,
    pub receipt_digest: EvidenceDigest,
}

impl ExecutionCleanupReceiptV1 {
    /// The document as JSON text.
    pub open spec fn json(self) -> Seq<char> {
        json_object(
            no_members()
                .push(("schema_version"@, json_nat(self.schema_version as nat)))
                .push(("attempt_id"@, json_string(self.attempt_id.text())))
                .push(("terminal_receipt_digest"@, json_string(self.terminal_receipt_digest@)))
                .push(("state"@, json_string(self.state.name())))
                .push(("unit_collected"@, json_bool(self.unit_collected)))
                .push(("scratch_removed_bytes"@, json_optional_nat(nat_option(self.scratch_removed_bytes))))
                .push(("remaining_transient_items"@, json_nat(self.remaining_transient_items as nat)))
                .push(("filesystem_available_after_bytes"@, json_optional_nat(nat_option(self.filesystem_available_after_bytes))))
                .push(("evidence_gaps"@, cleanup_gaps_json(self.evidence_gaps@)))
                .push(("error_code"@, json_optional_string(text_option(self.error_code))))
                .push(("completed_at_ms"@, json_int(self.completed_at_ms as int)))
                .push(("receipt_digest"@, json_string(self.receipt_digest@))),
        )
    }

    pub fn to_json(&self) -> (r: String)
        ensures
            r@ == self.json(),
    {
        let mut object = JsonObject::new();
        object.number("schema_version", self.schema_version as u64);
        let attempt_id = self.attempt_id.to_text();
        object.text("attempt_id", attempt_id.as_str());
        object.text("terminal_receipt_digest", self.terminal_receipt_digest.as_str());
        object.text("state", self.state.as_str());
        object.boolean("unit_collected", self.unit_collected);
        object.optional_number("scratch_removed_bytes", self.scratch_removed_bytes);
        object.number("remaining_transient_items", self.remaining_transient_items as u64);
        object.optional_number("filesystem_available_after_bytes", self.filesystem_available_after_bytes);
        let evidence_gaps = cleanup_gaps_json_text(&self.evidence_gaps);
        object.raw("evidence_gaps", evidence_gaps.as_str());
        object.optional_text("error_code", optional_str(&self.error_code));
        object.signed("completed_at_ms", self.completed_at_ms);
        object.text("receipt_digest", self.receipt_digest.as_str());
        object.finish()
    }

    /// What the digest is taken over.
    pub open spec fn sealed_json(self) -> Seq<char> {
        json_object(
            no_members()
                .push(("purpose"@, json_string("rdashboard.execution-cleanup-receipt.v1"@)))
                .push(("schema_version"@, json_nat(self.schema_version as nat)))
                .push(("attempt_id"@, json_string(self.attempt_id.text())))
                .push(("terminal_receipt_digest"@, json_string(self.terminal_receipt_digest@)))
                .push(("state"@, json_string(self.state.name())))
                .push(("unit_collected"@, json_bool(self.unit_collected)))
                .push(("scratch_removed_bytes"@, json_optional_nat(nat_option(self.scratch_removed_bytes))))
                .push(("remaining_transient_items"@, json_nat(self.remaining_transient_items as nat)))
                .push(("filesystem_available_after_bytes"@, json_optional_nat(nat_option(self.filesystem_available_after_bytes))))
                .push(("evidence_gaps"@, cleanup_gaps_json(self.evidence_gaps@)))
                .push(("error_code"@, json_optional_string(text_option(self.error_code))))
                .push(("completed_at_ms"@, json_int(self.completed_at_ms as int))),
        )
    }

    fn to_sealed_json(&self) -> (r: String)
        ensures
            r@ == self.sealed_json(),
    {
        let mut object = JsonObject::new();
        object.text("purpose", "rdashboard.execution-cleanup-receipt.v1");
        object.number("schema_version", self.schema_version as u64);
        let attempt_id = self.attempt_id.to_text();
        object.text("attempt_id", attempt_id.as_str());
        object.text("terminal_receipt_digest", self.terminal_receipt_digest.as_str());
        object.text("state", self.state.as_str());
        object.boolean("unit_collected", self.unit_collected);
        object.optional_number("scratch_removed_bytes", self.scratch_removed_bytes);
        object.number("remaining_transient_items", self.remaining_transient_items as u64);
        object.optional_number("filesystem_available_after_bytes", self.filesystem_available_after_bytes);
        let evidence_gaps = cleanup_gaps_json_text(&self.evidence_gaps);
        object.raw("evidence_gaps", evidence_gaps.as_str());
        object.optional_text("error_code", optional_str(&self.error_code));
        object.signed("completed_at_ms", self.completed_at_ms);
        object.finish()
    }

    /// Everything but the digest is in order: a complete cleanup has collected the unit and leaves
    /// nothing, a pending one has not, leaves something and says why.
    pub open spec fn well_formed(self) -> bool {
        &&& self.schema_version == EXECUTION_CLEANUP_RECEIPT_SCHEMA_VERSION
        &&& !self.attempt_id.nil()
        &&& self.completed_at_ms >= 0
        &&& self.error_code matches Some(code) ==> lower_token(code@, 96)
        &&& match self.state {
            ExecutionCleanupStateV1::Complete => self.unit_collected
                && self.remaining_transient_items == 0 && self.error_code is None,
            ExecutionCleanupStateV1::Pending => !self.unit_collected
                && self.remaining_transient_items > 0 && self.error_code is Some,
        }
        &&& self.evidence_gaps@ == cleanup_gaps(
            self.scratch_removed_bytes,
            self.filesystem_available_after_bytes,
        )
    }

    /// The digest is the one of what it seals.
    pub open spec fn sealed(self) -> bool {
        document_digest(self.sealed_json()) == Some(self.receipt_digest@)
    }

    /// What is wrong with a receipt, its form before its digest.
    pub open spec fn fault(self) -> Option<ExecutionReceiptError> {
        if !self.well_formed() {
            Some(ExecutionReceiptError::InvalidDocument)
        } else if document_digest(self.sealed_json()) is None {
            Some(ExecutionReceiptError::CanonicalEncoding)
        } else if !self.sealed() {
            Some(ExecutionReceiptError::DigestMismatch)
        } else {
            None
        }
    }

    fn calculate_digest(&self) -> (r: Result<EvidenceDigest, EncodingError>)
        ensures
            match r {
                Ok(digest) => document_digest(self.sealed_json()) == Some(digest@),
                Err(_) => document_digest(self.sealed_json()) is None,
            },
    {
        let text = self.to_sealed_json();
        digest_document(text.as_str())
    }

    fn is_well_formed(&self) -> (r: bool)
        ensures
            r == self.well_formed(),
    {
        let code_valid = match &self.error_code {
            Some(code) => is_bounded_token(
                code.as_str(),
                ByteClass::LowerToken,
                1,
                MAX_CLEANUP_ERROR_CODE_BYTES,
            ),
            None => true,
        };
        let state_valid = match self.state {
            ExecutionCleanupStateV1::Complete => self.unit_collected
                && self.remaining_transient_items == 0 && self.error_code.is_none(),
            ExecutionCleanupStateV1::Pending => !self.unit_collected
                && self.remaining_transient_items > 0 && self.error_code.is_some(),
        };
        self.schema_version == EXECUTION_CLEANUP_RECEIPT_SCHEMA_VERSION && !self.attempt_id.is_nil()
            && self.completed_at_ms >= 0 && code_valid && state_valid && same_cleanup_gaps(
            &self.evidence_gaps,
            &expected_cleanup_gaps(
                self.scratch_removed_bytes,
                self.filesystem_available_after_bytes,
            ),
        )
    }

    pub fn validate(&self) -> (r: Result<(), ExecutionReceiptError>)
        ensures
            match r {
                Ok(()) => self.fault() is None,
                Err(error) => self.fault() == Some(error),
            },
    {
        if !self.is_well_formed() {
            return Err(ExecutionReceiptError::InvalidDocument);
        }
        match self.calculate_digest() {
            Err(_) => Err(ExecutionReceiptError::CanonicalEncoding),
            Ok(digest) => if self.receipt_digest == digest {
                Ok(())
            } else {
                Err(ExecutionReceiptError::DigestMismatch)
            },
        }
    }

    /// The canonical bytes of a valid receipt.
    pub fn canonical_bytes(&self) -> (r: Result<Vec<u8>, ExecutionReceiptError>)
        ensures
            match r {
                Ok(bytes) => self.fault() is None && jcs(self.json()) == Some(bytes@),
                Err(error) => if self.fault() is Some {
                    self.fault() == Some(error)
                } else {
                    jcs(self.json()) is None && error is CanonicalEncoding
                },
            },
    {
        match self.validate() {
            Err(error) => Err(error),
            Ok(()) => {
                let text = self.to_json();
                match canonical_bytes(text.as_str()) {
                    Ok(bytes) => Ok(bytes),
                    Err(_) => Err(ExecutionReceiptError::CanonicalEncoding),
                }
            },
        }
    }

    /// Accepts a receipt that was read from some bytes, where the bytes are its canonical form and
    /// it is valid.
    pub fn decode_canonical(
        parsed: ExecutionCleanupReceiptV1,
        bytes: &[u8],
    ) -> (r: Result<ExecutionCleanupReceiptV1, ExecutionReceiptError>)
        ensures
            match r {
                Ok(receipt) => receipt == parsed && jcs(parsed.json()) == Some(bytes@)
                    && parsed.fault() is None,
                Err(error) => match jcs(parsed.json()) {
                    None => error is CanonicalEncoding,
                    Some(canonical) => if canonical != bytes@ {
                        error is InvalidDocument
                    } else {
                        parsed.fault() == Some(error)
                    },
                },
            },
    {
        let text = parsed.to_json();
        match is_canonical(text.as_str(), bytes) {
            Err(_) => Err(ExecutionReceiptError::CanonicalEncoding),
            Ok(false) => Err(ExecutionReceiptError::InvalidDocument),
            Ok(true) => match parsed.validate() {
                Err(error) => Err(error),
                Ok(()) => Ok(parsed),
            },
        }
    }

    /// The receipt says what it is made of.
    pub open spec fn describes(
        self,
        attempt_id: Uuid,
        terminal_receipt_digest: EvidenceDigest,
        state: ExecutionCleanupStateV1,
        unit_collected: bool,
        scratch_removed_bytes: Option<u64>,
        remaining_transient_items: u32,
        filesystem_available_after_bytes: Option<u64>,
        error_code: Option<String>,
        completed_at_ms: i64,
    ) -> bool {
        &&& self.schema_version == EXECUTION_CLEANUP_RECEIPT_SCHEMA_VERSION
        &&& self.attempt_id == attempt_id
        &&& self.terminal_receipt_digest == terminal_receipt_digest
        &&& self.state == state
        &&& self.unit_collected == unit_collected
        &&& self.scratch_removed_bytes == scratch_removed_bytes
        &&& self.remaining_transient_items == remaining_transient_items
        &&& self.filesystem_available_after_bytes == filesystem_available_after_bytes
        &&& self.error_code == error_code
        &&& self.completed_at_ms == completed_at_ms
        &&& self.evidence_gaps@ == cleanup_gaps(
            scratch_removed_bytes,
            filesystem_available_after_bytes,
        )
    }

    /// Fails where the receipt has no canonical form, and where it would not be valid, in this
    /// order.
    pub fn new(
        attempt_id: Uuid,
        terminal_receipt_digest: EvidenceDigest,
        state: ExecutionCleanupStateV1,
        unit_collected: bool,
        scratch_removed_bytes: Option<u64>,
        remaining_transient_items: u32,
        filesystem_available_after_bytes: Option<u64>,
        error_code: Option<String>,
        completed_at_ms: i64,
    ) -> (r: Result<ExecutionCleanupReceiptV1, ExecutionReceiptError>)
        ensures
            match r {
                Ok(receipt) => receipt.describes(attempt_id, terminal_receipt_digest, state, unit_collected, scratch_removed_bytes, remaining_transient_items, filesystem_available_after_bytes, error_code, completed_at_ms) && receipt.fault() is None,
                Err(error) => forall|receipt: ExecutionCleanupReceiptV1|
                    #[trigger] receipt.describes(attempt_id, terminal_receipt_digest, state, unit_collected, scratch_removed_bytes, remaining_transient_items, filesystem_available_after_bytes, error_code, completed_at_ms) ==> if document_digest(
                        receipt.sealed_json(),
                    ) is None {
                        error is CanonicalEncoding
                    } else {
                        error is InvalidDocument && !receipt.well_formed()
                    },
            },
    {
        let evidence_gaps = expected_cleanup_gaps(
            scratch_removed_bytes,
            filesystem_available_after_bytes,
        );
        let receipt_digest = terminal_receipt_digest.clone();
        let mut receipt = ExecutionCleanupReceiptV1 {
            schema_version: EXECUTION_CLEANUP_RECEIPT_SCHEMA_VERSION,
            attempt_id,
            terminal_receipt_digest,
            state,
            unit_collected,
            scratch_removed_bytes,
            remaining_transient_items,
            filesystem_available_after_bytes,
            evidence_gaps,
            error_code,
            completed_at_ms,
            receipt_digest,
        };
        assert(receipt.describes(attempt_id, terminal_receipt_digest, state, unit_collected, scratch_removed_bytes, remaining_transient_items, filesystem_available_after_bytes, error_code, completed_at_ms));
        match receipt.calculate_digest() {
            Err(_) => Err(ExecutionReceiptError::CanonicalEncoding),
            Ok(digest) => {
                let ghost unsealed = receipt;
                receipt.receipt_digest = digest;
                assert(receipt.sealed_json() == unsealed.sealed_json());
                match receipt.validate() {
                    Err(error) => Err(error),
                    Ok(()) => Ok(receipt),
                }
            },
        }
    }
}

/// An outcome is accepted only where what it tells agrees: what succeeded exited with zero and by no
/// signal, what failed did not exit with zero, and only what timed out or ran out of memory is said
/// to have.
pub proof fn law_outcomes_do_not_contradict_themselves(
    outcome: ExecutionProcessOutcomeV1,
    r: Result<(), ExecutionReceiptError>,
)
    requires
        call_ensures(ExecutionProcessOutcomeV1::validate, (&outcome,), r),
    ensures
        r is Ok && outcome.result is Succeeded ==> outcome.exit_code == Some(0i32)
            && outcome.signal is None,
        r is Ok && outcome.result is Failed ==> outcome.exit_code != Some(0i32),
        r is Ok ==> outcome.timed_out == (outcome.result is TimedOut) && outcome.oom_killed == (
        outcome.result is OomKilled),
        r is Ok && outcome.exit_code is Some ==> outcome.exit_code->0 >= 0,
        outcome.signal is None && (outcome.exit_code is None || outcome.exit_code->0 > 0)
            && outcome.timed_out == (outcome.result is TimedOut) && outcome.oom_killed == (
        outcome.result is OomKilled) && !(outcome.result is Succeeded) ==> r is Ok,
        outcome.result is Succeeded && outcome.exit_code == Some(0i32) && outcome.signal is None
            && !outcome.timed_out && !outcome.oom_killed ==> r is Ok,
{
}

/// What is told of the disk agrees: no peak below a measurement, and of the reserve either nothing
/// or what is left of it and what is missing of it, of which one at most is not zero.
pub proof fn law_storage_adds_up(
    storage: ExecutionStorageUsageV1,
    r: Result<(), ExecutionReceiptError>,
)
    requires
        call_ensures(ExecutionStorageUsageV1::validate, (&storage,), r),
    ensures
        r is Ok && storage.scratch_peak_bytes is Some && storage.scratch_before_bytes is Some
            ==> storage.scratch_before_bytes->0 <= storage.scratch_peak_bytes->0,
        r is Ok && storage.scratch_peak_bytes is Some && storage.scratch_after_bytes is Some
            ==> storage.scratch_after_bytes->0 <= storage.scratch_peak_bytes->0,
        r is Ok ==> (storage.emergency_reserve_required_bytes is Some) == (
        storage.emergency_reserve_remaining_bytes is Some) && (
        storage.emergency_reserve_required_bytes is Some) == (storage.emergency_reserve_deficit_bytes
            is Some),
        r is Ok && storage.emergency_reserve_required_bytes is Some ==> {
            &&& storage.filesystem_available_after_bytes is Some
            &&& storage.filesystem_available_after_bytes->0
                + storage.emergency_reserve_deficit_bytes->0
                == storage.emergency_reserve_required_bytes->0
                + storage.emergency_reserve_remaining_bytes->0
            &&& storage.emergency_reserve_deficit_bytes->0 == 0
                || storage.emergency_reserve_remaining_bytes->0 == 0
        },
        storage.scratch_peak_bytes is None && storage.emergency_reserve_required_bytes is None
            && storage.emergency_reserve_remaining_bytes is None
            && storage.emergency_reserve_deficit_bytes is None ==> r is Ok,
{
}

proof fn lemma_filter_members(
    gaps: Seq<ExecutionEvidenceGapV1>,
    keep: spec_fn(ExecutionEvidenceGapV1) -> bool,
    gap: ExecutionEvidenceGapV1,
)
    ensures
        gaps.filter(keep).contains(gap) <==> gaps.contains(gap) && keep(gap),
    decreases gaps.len(),
{
    reveal(Seq::filter);
    if gaps.len() > 0 {
        let head = gaps.drop_last();
        lemma_filter_members(head, keep, gap);
        assert(gaps =~= head.push(gaps.last()));
        let rest = head.filter(keep);
        if gaps.contains(gap) {
            let i = choose|i: int| 0 <= i < gaps.len() && gaps[i] == gap;
            if i < head.len() {
                assert(head[i] == gap);
            }
        }
        if head.contains(gap) {
            let i = choose|i: int| 0 <= i < head.len() && head[i] == gap;
            assert(gaps[i] == gap);
        }
        assert(gaps[gaps.len() - 1] == gaps.last());
        let out = gaps.filter(keep);
        if out.contains(gap) {
            let i = choose|i: int| 0 <= i < out.len() && out[i] == gap;
            if i < rest.len() {
                assert(rest[i] == gap);
            }
        }
        if rest.contains(gap) {
            let i = choose|i: int| 0 <= i < rest.len() && rest[i] == gap;
            assert(out[i] == gap);
        }
        if keep(gaps.last()) {
            assert(out[out.len() - 1] == gaps.last());
        }
    }
}

/// A gap is told exactly where something was not measured, each under its own name.
pub proof fn law_gaps_are_what_was_not_measured(
    process: ExecutionProcessOutcomeV1,
    resources: ExecutionResourceUsageV1,
    storage: ExecutionStorageUsageV1,
    gaps: Vec<ExecutionEvidenceGapV1>,
)
    requires
        call_ensures(expected_execution_gaps, (&process, &resources, &storage), gaps),
    ensures
        gaps@.contains(ExecutionEvidenceGapV1::CpuUsage) <==> resources.cpu_usage_usec is None,
        gaps@.contains(ExecutionEvidenceGapV1::MemoryPeak) <==> resources.memory_peak_bytes is None,
        gaps@.contains(ExecutionEvidenceGapV1::MemoryEvents) <==> resources.memory_events is None,
        gaps@.contains(ExecutionEvidenceGapV1::Io) <==> resources.io is None,
        gaps@.contains(ExecutionEvidenceGapV1::TasksPeak) <==> resources.tasks_peak is None,
        gaps@.contains(ExecutionEvidenceGapV1::ScratchBefore) <==> storage.scratch_before_bytes
            is None,
        gaps@.contains(ExecutionEvidenceGapV1::ScratchAfter) <==> storage.scratch_after_bytes is None,
        gaps@.contains(ExecutionEvidenceGapV1::ScratchPeak) <==> storage.scratch_peak_bytes is None,
        gaps@.contains(ExecutionEvidenceGapV1::CacheDelta) <==> storage.cache_delta_bytes is None,
        gaps@.contains(ExecutionEvidenceGapV1::LogDelta) <==> storage.log_delta_bytes is None,
        gaps@.contains(ExecutionEvidenceGapV1::FilesystemAvailable)
            <==> storage.filesystem_available_after_bytes is None,
        gaps@.contains(ExecutionEvidenceGapV1::EmergencyReserve)
            <==> storage.emergency_reserve_required_bytes is None
            || storage.emergency_reserve_remaining_bytes is None
            || storage.emergency_reserve_deficit_bytes is None,
        gaps@.contains(ExecutionEvidenceGapV1::ProcessStatus) <==> !(process.result is Succeeded)
            && process.exit_code is None && process.signal is None,
        forall|i: int, j: int| 0 <= i < j < gaps@.len() ==> gaps@[i] != gaps@[j],
{
    let all = all_execution_gaps();
    let keep = |gap: ExecutionEvidenceGapV1| gap.missing(process, resources, storage);
    law_gaps_are_strictly_ordered(process, resources, storage);
    assert forall|gap: ExecutionEvidenceGapV1| #[trigger] gaps@.contains(gap) <==> gap.missing(
        process,
        resources,
        storage,
    ) by {
        lemma_filter_members(all, keep, gap);
        assert(all[gap.rank()] == gap);
    }
}

/// A receipt of a step is accepted only where it is of some request, attempt and step, its times are
/// in order and its duration is what lies between them, its parts do not contradict themselves, it
/// tells every gap and no other, and it was not changed since it was sealed.
pub proof fn law_terminal_receipts_are_whole(
    receipt: ExecutionTerminalReceiptV1,
    r: Result<(), ExecutionReceiptError>,
    process: Result<(), ExecutionReceiptError>,
    storage: Result<(), ExecutionReceiptError>,
    gaps: Vec<ExecutionEvidenceGapV1>,
)
    requires
        call_ensures(ExecutionTerminalReceiptV1::validate, (&receipt,), r),
        call_ensures(ExecutionProcessOutcomeV1::validate, (&receipt.process,), process),
        call_ensures(ExecutionStorageUsageV1::validate, (&receipt.storage,), storage),
        call_ensures(
            expected_execution_gaps,
            (&receipt.process, &receipt.resources, &receipt.storage),
            gaps,
        ),
    ensures
        r is Ok ==> {
            &&& receipt.schema_version == 1
            &&& !receipt.request_id.nil() && !receipt.attempt_id.nil()
            &&& receipt.sequence > 0
            &&& 0 <= receipt.started_at_ms <= receipt.finished_at_ms
            &&& receipt.started_at_ms + receipt.duration_ms == receipt.finished_at_ms
            &&& process is Ok && storage is Ok
            &&& receipt.evidence_gaps@ == gaps@
            &&& document_digest(receipt.sealed_json()) == Some(receipt.receipt_digest@)
        },
{
}

/// A new receipt of a step tells what it was made of.
pub proof fn law_new_terminal_receipts_tell_their_step(
    request_id: Uuid,
    attempt_id: Uuid,
    start_evidence_digest: EvidenceDigest,
    project_id: ProjectId,
    phase: OperationPhase,
    step_id: String,
    sequence: u16,
    started_at_ms: i64,
    finished_at_ms: i64,
    process: ExecutionProcessOutcomeV1,
    resources: ExecutionResourceUsageV1,
    storage: ExecutionStorageUsageV1,
    receipt: ExecutionTerminalReceiptV1,
)
    requires
        receipt.describes(
            request_id,
            attempt_id,
            start_evidence_digest,
            project_id,
            phase,
            step_id,
            sequence,
            started_at_ms,
            finished_at_ms,
            process,
            resources,
            storage,
        ),
    ensures
        receipt.request_id == request_id,
        receipt.attempt_id == attempt_id,
        receipt.start_evidence_digest == start_evidence_digest,
        receipt.project_id == project_id,
        receipt.phase == phase,
        receipt.step_id == step_id,
        receipt.sequence == sequence,
        receipt.started_at_ms == started_at_ms,
        receipt.finished_at_ms == finished_at_ms,
        receipt.process == process,
        receipt.resources == resources,
        receipt.storage == storage,
        receipt.started_at_ms + receipt.duration_ms == receipt.finished_at_ms,
{
}

/// A cleanup is complete only where its unit was collected and nothing is left, and pending only
/// where something is and it is said why; what was not measured is told.
pub proof fn law_cleanups_are_complete_or_say_why(
    receipt: ExecutionCleanupReceiptV1,
    r: Result<(), ExecutionReceiptError>,
)
    requires
        call_ensures(ExecutionCleanupReceiptV1::validate, (&receipt,), r),
    ensures
        r is Ok && receipt.state is Complete ==> receipt.unit_collected
            && receipt.remaining_transient_items == 0 && receipt.error_code is None,
        r is Ok && receipt.state is Pending ==> !receipt.unit_collected
            && receipt.remaining_transient_items > 0 && receipt.error_code is Some,
        r is Ok ==> receipt.schema_version == 1 && !receipt.attempt_id.nil()
            && receipt.completed_at_ms >= 0 && document_digest(receipt.sealed_json()) == Some(
            receipt.receipt_digest@,
        ),
        r is Ok ==> (receipt.evidence_gaps@.contains(ExecutionCleanupEvidenceGapV1::ScratchRemoved)
            <==> receipt.scratch_removed_bytes is None),
        r is Ok ==> (receipt.evidence_gaps@.contains(
            ExecutionCleanupEvidenceGapV1::FilesystemAvailable,
        ) <==> receipt.filesystem_available_after_bytes is None),
{
    if receipt.scratch_removed_bytes is None && receipt.evidence_gaps@.len() > 0 {
        assert(receipt.evidence_gaps@[0] == receipt.evidence_gaps@[0]);
    }
    if receipt.evidence_gaps@.len() > 0 {
        let last = receipt.evidence_gaps@.len() - 1;
        assert(receipt.evidence_gaps@[last] == receipt.evidence_gaps@[last]);
    }
}

} // verus!
