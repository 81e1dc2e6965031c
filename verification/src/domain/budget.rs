//! Size caps, and the disk space that an operation reserves before it starts.

use vstd::prelude::*;
use super::identifiers::{digest_document, document_digest, EvidenceDigest};
use crate::json::{json_array, json_int, json_nat, json_string, EncodingError, JsonArray};

verus! {

pub const GIB: u64 = 1024 * 1024 * 1024;

pub const CONTROL_SQLITE_CAP_BYTES: u64 = 512 * 1024 * 1024;

pub const METRICS_SQLITE_CAP_BYTES: u64 = 2 * 1024 * 1024 * 1024;

pub const HOT_LOG_CAP_BYTES: u64 = 2 * 1024 * 1024 * 1024;

pub const PROJECT_HOT_LOG_CAP_BYTES: u64 = 256 * 1024 * 1024;

pub const OPERATION_OUTPUT_CAP_BYTES: u64 = 64 * 1024 * 1024;

pub const FAILURE_CAPSULE_CAP_BYTES: usize = 64 * 1024;

pub const LOG_EVENT_CAP_BYTES: usize = 256 * 1024;

pub const DISK_OBSERVATION_MAX_AGE_MS: i64 = 30_000;

/// The space kept free for recovery on a filesystem: 15 percent of it, rounded up, and never less
/// than eight gibibytes. The product is cut off at the largest 64-bit number.
pub open spec fn recovery_reserve(total_bytes: u64) -> int {
    let product = total_bytes * 15;
    let capped = if product > u64::MAX {
        u64::MAX as int
    } else {
        product
    };
    let share = (capped + 99) / 100;
    if share > 8 * GIB {
        share
    } else {
        8 * GIB
    }
}

/// The space kept free for recovery on a filesystem of the given size.
pub fn recovery_reserve_bytes(total_bytes: u64) -> (r: u64)
    ensures
        r == recovery_reserve(total_bytes),
{
    let product: u128 = total_bytes as u128 * 15;
    let capped: u128 = if product > u64::MAX as u128 {
        u64::MAX as u128
    } else {
        product
    };
    let share: u64 = ((capped + 99) / 100) as u64;
    if share > 8 * GIB {
        share
    } else {
        8 * GIB
    }
}

/// The free space of a filesystem at some time.
#[derive(Clone, Debug, PartialEq, Eq)]
pub struct DiskAvailabilityObservation {
    pub filesystem_identity: EvidenceDigest,
    pub available_bytes: u64,
    pub observed_at_ms: i64,
}

/// What an operation would need on a filesystem.
#[derive(Clone, Debug, PartialEq, Eq)]
pub struct DiskReservation {
    pub filesystem_identity: EvidenceDigest,
    pub filesystem_total_bytes: u64,
    pub filesystem_available_bytes: u64,
    pub observed_at_ms: i64,
    pub backup_staging_bytes: u64,
    pub build_peak_bytes: u64,
    pub registry_peak_bytes: u64,
    pub last_known_good_bytes: u64,
    pub projected_hot_store_growth_bytes: u64,
}

/// Why a reservation is refused.
#[derive(Clone, Copy, Debug, PartialEq, Eq, Structural)]
pub enum DiskReservationError {
    InvalidFilesystemMeasurement,
    CalculationOverflow,
    InsufficientSpace { required: u64, available: u64, deficit: u64 },
}

impl DiskReservation {
    /// What the operation itself would use at most.
    pub open spec fn operation_sum(self) -> int {
        self.backup_staging_bytes + self.build_peak_bytes + self.registry_peak_bytes
            + self.last_known_good_bytes + self.projected_hot_store_growth_bytes
    }

    /// What has to be free: the operation's own use and the recovery reserve.
    pub open spec fn required_sum(self) -> int {
        self.operation_sum() + recovery_reserve(self.filesystem_total_bytes)
    }

    /// The measurements do not contradict one another.
    pub open spec fn consistent(self) -> bool {
        self.filesystem_total_bytes != 0 && self.filesystem_available_bytes
            <= self.filesystem_total_bytes && self.observed_at_ms >= 0
    }

    pub fn emergency_reserve_bytes(&self) -> (r: u64)
        ensures
            r == recovery_reserve(self.filesystem_total_bytes),
    {
        recovery_reserve_bytes(self.filesystem_total_bytes)
    }

    /// The sum, unless it is too large to be told.
    pub fn required_bytes(&self) -> (r: Option<u64>)
        ensures
            match r {
                Some(sum) => sum == self.required_sum(),
                None => self.required_sum() > u64::MAX,
            },
    {
        match self.operation_bytes() {
            Some(sum) => sum.checked_add(self.emergency_reserve_bytes()),
            None => None,
        }
    }

    /// The sum, unless it is too large to be told.
    pub fn operation_bytes(&self) -> (r: Option<u64>)
        ensures
            match r {
                Some(sum) => sum == self.operation_sum(),
                None => self.operation_sum() > u64::MAX,
            },
    {
        let sum: u128 = self.backup_staging_bytes as u128 + self.build_peak_bytes as u128
            + self.registry_peak_bytes as u128 + self.last_known_good_bytes as u128
            + self.projected_hot_store_growth_bytes as u128;
        if sum > u64::MAX as u128 {
            None
        } else {
            Some(sum as u64)
        }
    }

    /// Grants the reservation exactly where the measurements are consistent and the space is there.
    pub fn evaluate(&self) -> (r: Result<(), DiskReservationError>)
        ensures
            match r {
                Ok(()) => self.consistent() && self.required_sum()
                    <= self.filesystem_available_bytes,
                Err(DiskReservationError::InvalidFilesystemMeasurement) => !self.consistent(),
                Err(DiskReservationError::CalculationOverflow) => self.consistent()
                    && self.required_sum() > u64::MAX,
                Err(DiskReservationError::InsufficientSpace { required, available, deficit }) => {
                    &&& self.consistent()
                    &&& required == self.required_sum()
                    &&& available == self.filesystem_available_bytes
                    &&& available < required
                    &&& deficit == required - available
                },
            },
    {
        if self.filesystem_total_bytes == 0 || self.filesystem_available_bytes
            > self.filesystem_total_bytes || self.observed_at_ms < 0 {
            return Err(DiskReservationError::InvalidFilesystemMeasurement);
        }
        match self.required_bytes() {
            None => Err(DiskReservationError::CalculationOverflow),
            Some(required) => if self.filesystem_available_bytes < required {
                Err(
                    DiskReservationError::InsufficientSpace {
                        required,
                        available: self.filesystem_available_bytes,
                        deficit: required - self.filesystem_available_bytes,
                    },
                )
            } else {
                Ok(())
            },
        }
    }
}

/// Once a granted operation has used all it reserved, the recovery reserve is still free.
pub proof fn law_granted_reservation_keeps_the_reserve(reservation: DiskReservation)
    requires
        reservation.consistent(),
        reservation.required_sum() <= reservation.filesystem_available_bytes,
    ensures
        reservation.filesystem_available_bytes - reservation.operation_sum() >= recovery_reserve(
            reservation.filesystem_total_bytes,
        ),
        recovery_reserve(reservation.filesystem_total_bytes) >= 8 * GIB,
{
}

/// A larger filesystem never has a smaller recovery reserve.
pub proof fn law_recovery_reserve_is_monotone(a: u64, b: u64)
    requires
        a <= b,
    ensures
        recovery_reserve(a) <= recovery_reserve(b),
{
}

/// Each of the five amounts counts once: an operation uses as much more than it would without one
/// of them as that one is, and nothing where there are none. The sum is told wherever it fits.
pub proof fn law_each_amount_counts_once(
    reservation: DiskReservation,
    without: DiskReservation,
    amount: u64,
    whole: Option<u64>,
    rest: Option<u64>,
)
    requires
        ({
            ||| without == (DiskReservation { backup_staging_bytes: 0, ..reservation }) && amount
                == reservation.backup_staging_bytes
            ||| without == (DiskReservation { build_peak_bytes: 0, ..reservation }) && amount
                == reservation.build_peak_bytes
            ||| without == (DiskReservation { registry_peak_bytes: 0, ..reservation }) && amount
                == reservation.registry_peak_bytes
            ||| without == (DiskReservation { last_known_good_bytes: 0, ..reservation }) && amount
                == reservation.last_known_good_bytes
            ||| without == (DiskReservation { projected_hot_store_growth_bytes: 0, ..reservation })
                && amount == reservation.projected_hot_store_growth_bytes
        }),
        call_ensures(DiskReservation::operation_bytes, (&reservation,), whole),
        call_ensures(DiskReservation::operation_bytes, (&without,), rest),
    ensures
        rest is None ==> whole is None,
        rest matches Some(bytes) ==> if bytes + amount <= u64::MAX {
            whole == Some((bytes + amount) as u64)
        } else {
            whole is None
        },
        reservation.backup_staging_bytes == 0 && reservation.build_peak_bytes == 0
            && reservation.registry_peak_bytes == 0 && reservation.last_known_good_bytes == 0
            && reservation.projected_hot_store_growth_bytes == 0 ==> whole == Some(0u64),
{
}

/// What has to be free is what the operation uses and what is kept for recovery, and a reservation
/// is granted exactly where that much is free on a filesystem that was measured soundly. Where it is
/// refused for want of space, the deficit is what is missing.
pub proof fn law_reservations_leave_the_reserve(
    reservation: DiskReservation,
    operation: Option<u64>,
    reserve: u64,
    required: Option<u64>,
    r: Result<(), DiskReservationError>,
)
    requires
        call_ensures(DiskReservation::operation_bytes, (&reservation,), operation),
        call_ensures(DiskReservation::emergency_reserve_bytes, (&reservation,), reserve),
        call_ensures(DiskReservation::required_bytes, (&reservation,), required),
        call_ensures(DiskReservation::evaluate, (&reservation,), r),
    ensures
        required is Some <==> operation is Some && operation->0 + reserve <= u64::MAX,
        required is Some ==> required->0 == operation->0 + reserve,
        r is Ok ==> operation is Some && operation->0 + reserve
            <= reservation.filesystem_available_bytes <= reservation.filesystem_total_bytes,
        r is Ok ==> reservation.filesystem_total_bytes > 0 && reservation.observed_at_ms >= 0,
        r matches Err(DiskReservationError::InvalidFilesystemMeasurement) ==> {
            ||| reservation.filesystem_total_bytes == 0
            ||| reservation.filesystem_available_bytes > reservation.filesystem_total_bytes
            ||| reservation.observed_at_ms < 0
        },
        reservation.filesystem_total_bytes == 0 || reservation.observed_at_ms < 0
            || reservation.filesystem_available_bytes > reservation.filesystem_total_bytes ==> r
            == Err::<(), _>(DiskReservationError::InvalidFilesystemMeasurement),
        r matches Err(DiskReservationError::CalculationOverflow) ==> required is None,
        r matches Err(
            DiskReservationError::InsufficientSpace { required: needed, available, deficit },
        ) ==> required == Some(needed) && available == reservation.filesystem_available_bytes
            && available + deficit == needed && deficit > 0,
{
}

/// With more space free, what was granted stays granted.
pub proof fn law_more_space_refuses_nothing(
    tight: DiskReservation,
    roomy: DiskReservation,
    r_tight: Result<(), DiskReservationError>,
    r_roomy: Result<(), DiskReservationError>,
)
    requires
        roomy == (DiskReservation {
            filesystem_available_bytes: roomy.filesystem_available_bytes,
            ..tight
        }),
        tight.filesystem_available_bytes <= roomy.filesystem_available_bytes,
        roomy.filesystem_available_bytes <= tight.filesystem_total_bytes,
        call_ensures(DiskReservation::evaluate, (&tight,), r_tight),
        call_ensures(DiskReservation::evaluate, (&roomy,), r_roomy),
    ensures
        r_tight is Ok ==> r_roomy is Ok,
{
}

/// What is kept for recovery is at least 15 percent of the filesystem and at least eight gibibytes,
/// and it is no byte more than the greater of the two asks for. Of a filesystem whose share cannot be
/// told, as much is kept as of the largest number of bytes.
pub proof fn law_recovery_reserve_is_the_least_share(total_bytes: u64, reserve: u64)
    requires
        call_ensures(recovery_reserve_bytes, (total_bytes,), reserve),
    ensures
        reserve >= 8_589_934_592,
        total_bytes * 15 <= u64::MAX ==> reserve * 100 >= total_bytes * 15,
        total_bytes * 15 <= u64::MAX && reserve > 8_589_934_592 ==> (reserve - 1) * 100
            < total_bytes * 15,
        total_bytes * 15 > u64::MAX ==> reserve * 100 >= u64::MAX && (reserve - 1) * 100
            < u64::MAX,
{
}

/// What a granted operation may use and the reserve are all that was required of the disk.
pub proof fn law_granted_bytes_add_up(reservation: AuthorizedDiskReservation, r: Option<u64>)
    requires
        call_ensures(AuthorizedDiskReservation::operation_bytes, (&reservation,), r),
    ensures
        r is Some <==> reservation.emergency_reserve_bytes <= reservation.required_bytes,
        r matches Some(bytes) ==> bytes + reservation.emergency_reserve_bytes
            == reservation.required_bytes,
{
}

/// A reservation that was granted to an operation, sealed by a digest.
#[derive(Clone, Debug, PartialEq, Eq)]
pub struct AuthorizedDiskReservation {
    pub operation_digest: EvidenceDigest,
    pub reservation_digest: EvidenceDigest,
    pub required_bytes: u64,
    pub available_bytes: u64,
    pub emergency_reserve_bytes: u64,
    pub filesystem_identity: EvidenceDigest,
    pub observed_at_ms: i64,
}

/// What the digest of a reservation is taken over.
pub open spec fn reservation_json(
    operation_digest: Seq<char>,
    required_bytes: nat,
    available_bytes: nat,
    emergency_reserve_bytes: nat,
    filesystem_identity: Seq<char>,
    observed_at_ms: int,
) -> Seq<char> {
    json_array(
        Seq::<Seq<char>>::empty()
            .push(json_string("rdashboard.resource-reservation.v1"@))
            .push(json_string(operation_digest))
            .push(json_nat(required_bytes))
            .push(json_nat(available_bytes))
            .push(json_nat(emergency_reserve_bytes))
            .push(json_string(filesystem_identity))
            .push(json_int(observed_at_ms)),
    )
}

impl AuthorizedDiskReservation {
    pub open spec fn json(self) -> Seq<char> {
        reservation_json(
            self.operation_digest@,
            self.required_bytes as nat,
            self.available_bytes as nat,
            self.emergency_reserve_bytes as nat,
            self.filesystem_identity@,
            self.observed_at_ms as int,
        )
    }

    /// The digest is the one of what it seals.
    pub open spec fn sealed(self) -> bool {
        document_digest(self.json()) == Some(self.reservation_digest@)
    }

    pub fn calculate_reservation_digest(
        operation_digest: &EvidenceDigest,
        required_bytes: u64,
        available_bytes: u64,
        emergency_reserve_bytes: u64,
        filesystem_identity: &EvidenceDigest,
        observed_at_ms: i64,
    ) -> (r: Result<EvidenceDigest, EncodingError>)
        ensures
            ({
                let json = reservation_json(
                    operation_digest@,
                    required_bytes as nat,
                    available_bytes as nat,
                    emergency_reserve_bytes as nat,
                    filesystem_identity@,
                    observed_at_ms as int,
                );
                match r {
                    Ok(digest) => document_digest(json) == Some(digest@),
                    Err(_) => document_digest(json) is None,
                }
            }),
    {
        let mut array = JsonArray::new();
        array.text("rdashboard.resource-reservation.v1");
        array.text(operation_digest.as_str());
        array.number(required_bytes);
        array.number(available_bytes);
        array.number(emergency_reserve_bytes);
        array.text(filesystem_identity.as_str());
        array.signed(observed_at_ms);
        let text = array.finish();
        digest_document(text.as_str())
    }

    /// Whether the reservation is sealed.
    pub fn has_valid_reservation_digest(&self) -> (r: Result<bool, EncodingError>)
        ensures
            match r {
                Ok(valid) => document_digest(self.json()) is Some && valid == self.sealed(),
                Err(_) => document_digest(self.json()) is None,
            },
    {
        match AuthorizedDiskReservation::calculate_reservation_digest(
            &self.operation_digest,
            self.required_bytes,
            self.available_bytes,
            self.emergency_reserve_bytes,
            &self.filesystem_identity,
            self.observed_at_ms,
        ) {
            Ok(digest) => Ok(self.reservation_digest == digest),
            Err(error) => Err(error),
        }
    }

    /// What the operation itself may use, unless the reserve exceeds what was required.
    pub fn operation_bytes(&self) -> (r: Option<u64>)
        ensures
            match r {
                Some(bytes) => bytes == self.required_bytes - self.emergency_reserve_bytes,
                None => self.required_bytes < self.emergency_reserve_bytes,
            },
    {
        self.required_bytes.checked_sub(self.emergency_reserve_bytes)
    }
}

} // verus!
