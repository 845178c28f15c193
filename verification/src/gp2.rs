//! General-purpose volumes whose performance follows from their size alone.

use vstd::prelude::*;

use crate::clamp::{at_least, at_most};
use crate::error::{Field, LimitError};
use crate::limit::{lemma_result_view_is_injective, result_view, Envelope, Limit};
use crate::volume_size::{
    volume_size_admissible, volume_size_refused, MAX_VOLUME_SIZE_GB, MIN_VOLUME_SIZE_GB,
};

verus! {

/// The small tier, for volumes below 170 GiB: 3 IOPS per GiB but no less than
/// 100, a quarter of that in MiB/s up to 128, and bursts to 3000 IOPS at
/// 128 MiB/s.
pub open spec fn gp2_small_tier(size: nat) -> Envelope {
    Envelope {
        iops: at_least(3 * size, 100),
        speed: at_most(at_least(3 * size, 100) / 4, 128),
        burst_iops: 3000,
        burst_speed: 128,
    }
}

/// The middle tier, for volumes from 170 GiB to 1000 GiB: 3 IOPS per GiB, a
/// quarter of that in MiB/s up to 250, and bursts to 3000 IOPS at 250 MiB/s.
pub open spec fn gp2_middle_tier(size: nat) -> Envelope {
    Envelope {
        iops: 3 * size,
        speed: at_most(3 * size / 4, 250),
        burst_iops: 3000,
        burst_speed: 250,
    }
}

/// The large tier, for volumes above 1000 GiB: 3 IOPS per GiB up to 16000,
/// 250 MiB/s, and nothing to burst to.
pub open spec fn gp2_large_tier(size: nat) -> Envelope {
    Envelope { iops: at_most(3 * size, 16000), speed: 250, burst_iops: 0, burst_speed: 0 }
}

/// The envelope of a volume of `size` GiB: that of the tier its size falls in.
pub open spec fn gp2_envelope(size: nat) -> Envelope {
    if size > 1000 {
        gp2_large_tier(size)
    } else if size < 170 {
        gp2_small_tier(size)
    } else {
        gp2_middle_tier(size)
    }
}

/// What `calculate_gp2_limits` returns for `size`.
pub open spec fn gp2_limits(size: u32) -> Result<Envelope, LimitError> {
    if volume_size_admissible(size) {
        Ok(gp2_envelope(size as nat))
    } else {
        Err(volume_size_refused(size))
    }
}

/// The limits of a volume of `volume_size_gb` GiB, or `OutOfRange` for a size
/// that cannot be provisioned.
pub fn calculate_gp2_limits(volume_size_gb: u32) -> (result: Result<Limit, LimitError>)
    ensures
        result is Ok <==> volume_size_admissible(volume_size_gb),
        result_view(result) == gp2_limits(volume_size_gb),
{
    if volume_size_gb < MIN_VOLUME_SIZE_GB || volume_size_gb > MAX_VOLUME_SIZE_GB {
        return Err(
            LimitError::OutOfRange {
                field: Field::VolumeSize,
                value: volume_size_gb,
                min: MIN_VOLUME_SIZE_GB,
                max: MAX_VOLUME_SIZE_GB,
            },
        );
    }
    let earned_iops: u32 = 3 * volume_size_gb;
    if volume_size_gb > 1000 {
        let max_available_iops: u32 = 16000;
        let max_available_throughput: u32 = 250;
        let baseline_iops: u32 = earned_iops.min(max_available_iops);
        Ok(
            Limit {
                iops: baseline_iops,
                speed: max_available_throughput,
                burst_iops: 0,
                burst_speed: 0,
            },
        )
    } else {
        let burst: u32 = 3000;
        if volume_size_gb < 170 {
            let max_available_throughput: u32 = 128;
            let baseline_iops: u32 = earned_iops.max(100);
            let baseline_throughput: u32 = max_available_throughput.min(baseline_iops / 4);
            Ok(
                Limit {
                    iops: baseline_iops,
                    speed: baseline_throughput,
                    burst_iops: burst,
                    burst_speed: max_available_throughput,
                },
            )
        } else {
            let max_available_throughput: u32 = 250;
            let baseline_throughput: u32 = max_available_throughput.min(earned_iops / 4);
            Ok(
                Limit {
                    iops: earned_iops,
                    speed: baseline_throughput,
                    burst_iops: burst,
                    burst_speed: max_available_throughput,
                },
            )
        }
    }
}

/// A size that cannot be provisioned is refused as out of range, and no limit
/// is returned for it.
pub proof fn lemma_gp2_refuses_size_out_of_range(size: u32)
    requires
        !volume_size_admissible(size),
    ensures
        gp2_limits(size) matches Err(LimitError::OutOfRange { .. }),
{
}

/// The tiers meet exactly at 170 GiB and above 1000 GiB: 170 GiB and 1000 GiB
/// are both in the middle tier, and 1001 GiB is the first of the large tier.
pub proof fn lemma_gp2_tiers_are_exact(size: nat)
    ensures
        size < 170 ==> gp2_envelope(size) == gp2_small_tier(size),
        170 <= size <= 1000 ==> gp2_envelope(size) == gp2_middle_tier(size),
        size > 1000 ==> gp2_envelope(size) == gp2_large_tier(size),
{
}

/// Across the tiers the baseline follows one rule: 3 IOPS per GiB, no less
/// than 100 and no more than 16000, and a quarter of the IOPS in MiB/s, no
/// more than 250. The cap of 128 MiB/s on the small tier is never reached.
pub proof fn lemma_gp2_baseline_follows_one_rule(size: nat)
    ensures
        gp2_envelope(size).iops == at_most(at_least(3 * size, 100), 16000),
        gp2_envelope(size).speed == at_most(gp2_envelope(size).iops / 4, 250),
{
}

/// A volume of up to 1000 GiB bursts, and to no less than its baseline; a
/// larger one has nothing to burst to.
pub proof fn lemma_gp2_bursts_up_to_1000_gib(size: nat)
    ensures
        size <= 1000 ==> {
            &&& gp2_envelope(size).burst_iops > 0
            &&& gp2_envelope(size).iops <= gp2_envelope(size).burst_iops
            &&& gp2_envelope(size).speed <= gp2_envelope(size).burst_speed
        },
        size > 1000 ==> {
            &&& gp2_envelope(size).burst_iops == 0
            &&& gp2_envelope(size).burst_speed == 0
        },
{
}

/// The limits depend on the size alone: two results for one size are one result.
pub proof fn lemma_gp2_depends_on_size_alone(
    first_size: u32,
    second_size: u32,
    first: Result<Limit, LimitError>,
    second: Result<Limit, LimitError>,
)
    requires
        first_size == second_size,
        result_view(first) == gp2_limits(first_size),
        result_view(second) == gp2_limits(second_size),
    ensures
        first == second,
{
    lemma_result_view_is_injective(first, second);
}

} // verus!
