//! Provisioned-IOPS volumes, whose throughput follows from their IOPS.

use vstd::prelude::*;

use crate::clamp::at_most;
use crate::error::{Field, LimitError};
use crate::limit::{lemma_result_view_is_injective, result_view, Envelope, Limit};

verus! {

/// The least IOPS that can be provisioned.
pub const IO_MIN_IOPS: u32 = 100;

/// The most IOPS that can be provisioned.
pub const IO_MAX_IOPS: u32 = 64000;

/// Whether `iops` lies in the interval that can be provisioned.
pub open spec fn io_iops_admissible(iops: u32) -> bool {
    IO_MIN_IOPS <= iops <= IO_MAX_IOPS
}

/// The error for IOPS that cannot be provisioned.
pub open spec fn io_iops_refused(iops: u32) -> LimitError {
    LimitError::OutOfRange {
        field: Field::ProvisionedIops,
        value: iops,
        min: IO_MIN_IOPS,
        max: IO_MAX_IOPS,
    }
}

/// The lower tier, for fewer than 32000 IOPS: a quarter of the IOPS in MiB/s,
/// up to 500.
pub open spec fn io_lower_tier_throughput(iops: nat) -> nat {
    at_most(iops / 4, 500)
}

/// The upper tier, from 32000 IOPS on: a sixty-fourth of the IOPS in MiB/s,
/// up to 1000.
pub open spec fn io_upper_tier_throughput(iops: nat) -> nat {
    at_most(iops / 64, 1000)
}

/// The throughput in MiB/s that `iops` carry: that of the tier they fall in.
pub open spec fn io_throughput(iops: nat) -> nat {
    if iops < 32000 {
        io_lower_tier_throughput(iops)
    } else {
        io_upper_tier_throughput(iops)
    }
}

/// The envelope of a volume provisioned with `iops`: those IOPS, the
/// throughput they carry, and nothing to burst to.
pub open spec fn io_envelope(iops: nat) -> Envelope {
    Envelope { iops, speed: io_throughput(iops), burst_iops: 0, burst_speed: 0 }
}

/// What `calculate_io_limits` returns for `iops`.
pub open spec fn io_limits(iops: u32) -> Result<Envelope, LimitError> {
    if io_iops_admissible(iops) {
        Ok(io_envelope(iops as nat))
    } else {
        Err(io_iops_refused(iops))
    }
}

/// The limits of a volume provisioned with `volume_provisioned_iops`, or
/// `OutOfRange` for IOPS that cannot be provisioned.
pub fn calculate_io_limits(volume_provisioned_iops: u32) -> (result: Result<Limit, LimitError>)
    ensures
        result is Ok <==> io_iops_admissible(volume_provisioned_iops),
        result_view(result) == io_limits(volume_provisioned_iops),
{
    if volume_provisioned_iops < IO_MIN_IOPS || volume_provisioned_iops > IO_MAX_IOPS {
        return Err(
            LimitError::OutOfRange {
                field: Field::ProvisionedIops,
                value: volume_provisioned_iops,
                min: IO_MIN_IOPS,
                max: IO_MAX_IOPS,
            },
        );
    }
    let baseline_throughput: u32 = if volume_provisioned_iops < 32000 {
        let max_available_throughput: u32 = 500;
        max_available_throughput.min(volume_provisioned_iops / 4)
    } else {
        let max_available_throughput: u32 = 1000;
        max_available_throughput.min(volume_provisioned_iops / 64)
    };
    Ok(
        Limit {
            iops: volume_provisioned_iops,
            speed: baseline_throughput,
            burst_iops: 0,
            burst_speed: 0,
        },
    )
}

/// IOPS that cannot be provisioned are refused as out of range, and no limit
/// is returned for them.
pub proof fn lemma_io_refuses_iops_out_of_range(iops: u32)
    requires
        !io_iops_admissible(iops),
    ensures
        io_limits(iops) matches Err(LimitError::OutOfRange { .. }),
{
}

/// The tiers meet exactly at 32000 IOPS: 31999 IOPS are the last of the lower
/// tier, 32000 IOPS the first of the upper one.
pub proof fn lemma_io_tiers_are_exact(iops: nat)
    ensures
        iops < 32000 ==> io_throughput(iops) == io_lower_tier_throughput(iops),
        iops >= 32000 ==> io_throughput(iops) == io_upper_tier_throughput(iops),
{
}

/// On IOPS that can be provisioned the throughput is between 25 MiB/s and
/// 1000 MiB/s and takes at least four IOPS for each MiB/s. From 32000 IOPS on
/// it is a sixty-fourth of the IOPS: the cap of 1000 MiB/s takes nothing away.
pub proof fn lemma_io_throughput_bounds(iops: nat)
    requires
        IO_MIN_IOPS <= iops <= IO_MAX_IOPS,
    ensures
        25 <= io_throughput(iops) <= 1000,
        4 * io_throughput(iops) <= iops,
        iops >= 32000 ==> io_throughput(iops) == iops / 64,
{
}

/// The limits depend on the IOPS alone: two results for the same IOPS are one
/// result.
pub proof fn lemma_io_depends_on_iops_alone(
    first_iops: u32,
    second_iops: u32,
    first: Result<Limit, LimitError>,
    second: Result<Limit, LimitError>,
)
    requires
        first_iops == second_iops,
        result_view(first) == io_limits(first_iops),
        result_view(second) == io_limits(second_iops),
    ensures
        first == second,
{
    lemma_result_view_is_injective(first, second);
}

} // verus!
