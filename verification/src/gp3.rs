//! General-purpose volumes whose IOPS and throughput are provisioned apart
//! from their size.

use vstd::prelude::*;

use crate::error::{Field, LimitError, RatioRule};
use crate::limit::{lemma_result_view_is_injective, result_view, Envelope, Limit};
use crate::volume_size::{
    volume_size_admissible, volume_size_refused, MAX_VOLUME_SIZE_GB, MIN_VOLUME_SIZE_GB,
};

verus! {

/// The IOPS of a volume that provisions none; also the least that can be provisioned.
pub const GP3_BASELINE_IOPS: u32 = 3000;

/// The most IOPS that can be provisioned.
pub const GP3_MAX_IOPS: u32 = 64000;

/// The throughput in MiB/s of a volume that provisions none; also the least
/// that can be provisioned.
pub const GP3_BASELINE_THROUGHPUT: u32 = 125;

/// The most throughput that can be provisioned, in MiB/s.
pub const GP3_MAX_THROUGHPUT: u32 = 1000;

/// The most IOPS that can be provisioned per GiB, counted in whole IOPS.
pub const GP3_MAX_IOPS_PER_GB: u32 = 500;

/// The least IOPS that each provisioned MiB/s needs, counted in whole IOPS.
pub const GP3_MIN_IOPS_PER_THROUGHPUT: u32 = 4;

/// Whether `iops` lies in the interval that can be provisioned.
pub open spec fn gp3_iops_admissible(iops: u32) -> bool {
    GP3_BASELINE_IOPS <= iops <= GP3_MAX_IOPS
}

/// Whether `throughput` lies in the interval that can be provisioned.
pub open spec fn gp3_throughput_admissible(throughput: u32) -> bool {
    GP3_BASELINE_THROUGHPUT <= throughput <= GP3_MAX_THROUGHPUT
}

/// The IOPS that the volume runs at: what was provisioned, else the baseline.
pub open spec fn gp3_resolved_iops(provisioned_iops: Option<u32>) -> u32 {
    match provisioned_iops {
        Some(iops) => iops,
        None => GP3_BASELINE_IOPS,
    }
}

/// The throughput that the volume runs at: what was provisioned, else the baseline.
pub open spec fn gp3_resolved_throughput(provisioned_throughput: Option<u32>) -> u32 {
    match provisioned_throughput {
        Some(throughput) => throughput,
        None => GP3_BASELINE_THROUGHPUT,
    }
}

/// What is wrong with provisioned IOPS on a volume of `size` GiB: first their
/// interval, then their ratio to the size. Absent IOPS are never wrong.
pub open spec fn gp3_iops_violation(size: u32, provisioned_iops: Option<u32>) -> Option<
    LimitError,
> {
    match provisioned_iops {
        None => None,
        Some(iops) => if !gp3_iops_admissible(iops) {
            Some(
                LimitError::OutOfRange {
                    field: Field::ProvisionedIops,
                    value: iops,
                    min: GP3_BASELINE_IOPS,
                    max: GP3_MAX_IOPS,
                },
            )
        } else if iops / size > GP3_MAX_IOPS_PER_GB {
            Some(
                LimitError::RatioViolation {
                    rule: RatioRule::IopsToSize,
                    iops,
                    divisor: size,
                    bound: GP3_MAX_IOPS_PER_GB,
                },
            )
        } else {
            None
        },
    }
}

/// What is wrong with provisioned throughput on a volume that runs at `iops`:
/// first its interval, then the ratio of the IOPS to it. Absent throughput is
/// never wrong.
pub open spec fn gp3_throughput_violation(iops: u32, provisioned_throughput: Option<u32>) -> Option<
    LimitError,
> {
    match provisioned_throughput {
        None => None,
        Some(throughput) => if !gp3_throughput_admissible(throughput) {
            Some(
                LimitError::OutOfRange {
                    field: Field::ProvisionedThroughput,
                    value: throughput,
                    min: GP3_BASELINE_THROUGHPUT,
                    max: GP3_MAX_THROUGHPUT,
                },
            )
        } else if iops / throughput < GP3_MIN_IOPS_PER_THROUGHPUT {
            Some(
                LimitError::RatioViolation {
                    rule: RatioRule::IopsToThroughput,
                    iops,
                    divisor: throughput,
                    bound: GP3_MIN_IOPS_PER_THROUGHPUT,
                },
            )
        } else {
            None
        },
    }
}

/// The first rule that the inputs break, in the order size, IOPS, throughput;
/// `None` where they break none.
pub open spec fn gp3_violation(
    size: u32,
    provisioned_iops: Option<u32>,
    provisioned_throughput: Option<u32>,
) -> Option<LimitError> {
    if !volume_size_admissible(size) {
        Some(volume_size_refused(size))
    } else if gp3_iops_violation(size, provisioned_iops) is Some {
        gp3_iops_violation(size, provisioned_iops)
    } else {
        gp3_throughput_violation(gp3_resolved_iops(provisioned_iops), provisioned_throughput)
    }
}

/// Whether the inputs keep every rule: each in its interval, at most 500 whole
/// IOPS per GiB where IOPS are provisioned, and at least 4 whole IOPS, of those
/// the volume runs at, per MiB/s where throughput is provisioned.
pub open spec fn gp3_admissible(
    size: u32,
    provisioned_iops: Option<u32>,
    provisioned_throughput: Option<u32>,
) -> bool {
    &&& volume_size_admissible(size)
    &&& provisioned_iops matches Some(iops) ==> {
        &&& gp3_iops_admissible(iops)
        &&& iops / size <= GP3_MAX_IOPS_PER_GB
    }
    &&& provisioned_throughput matches Some(throughput) ==> {
        &&& gp3_throughput_admissible(throughput)
        &&& gp3_resolved_iops(provisioned_iops) / throughput >= GP3_MIN_IOPS_PER_THROUGHPUT
    }
}

/// Whether one of the inputs lies outside its interval.
pub open spec fn gp3_input_out_of_range(
    size: u32,
    provisioned_iops: Option<u32>,
    provisioned_throughput: Option<u32>,
) -> bool {
    ||| !volume_size_admissible(size)
    ||| provisioned_iops matches Some(iops) && !gp3_iops_admissible(iops)
    ||| provisioned_throughput matches Some(throughput) && !gp3_throughput_admissible(throughput)
}

/// Whether IOPS were provisioned that lie in their interval and come to more
/// than 500 whole IOPS per GiB.
pub open spec fn gp3_iops_exceed_ratio(size: u32, provisioned_iops: Option<u32>) -> bool {
    &&& provisioned_iops matches Some(iops)
    &&& gp3_iops_admissible(iops)
    &&& iops / size > GP3_MAX_IOPS_PER_GB
}

/// The envelope of a volume that runs at `iops` and `throughput`: exactly
/// those, with nothing to burst to.
pub open spec fn gp3_envelope(iops: nat, throughput: nat) -> Envelope {
    Envelope { iops, speed: throughput, burst_iops: 0, burst_speed: 0 }
}

/// What `calculate_gp3_limits` returns for these inputs.
pub open spec fn gp3_limits(
    size: u32,
    provisioned_iops: Option<u32>,
    provisioned_throughput: Option<u32>,
) -> Result<Envelope, LimitError> {
    match gp3_violation(size, provisioned_iops, provisioned_throughput) {
        Some(error) => Err(error),
        None => Ok(
            gp3_envelope(
                gp3_resolved_iops(provisioned_iops) as nat,
                gp3_resolved_throughput(provisioned_throughput) as nat,
            ),
        ),
    }
}

/// The limits of a volume of `volume_size_gb` GiB with the IOPS and throughput
/// that were provisioned for it, each at its baseline where absent; or the
/// first rule that the inputs break.
pub fn calculate_gp3_limits(
    volume_size_gb: u32,
    volume_provisioned_iops: Option<u32>,
    volume_provisioned_throughput: Option<u32>,
) -> (result: Result<Limit, LimitError>)
    ensures
        result is Ok <==> gp3_admissible(
            volume_size_gb,
            volume_provisioned_iops,
            volume_provisioned_throughput,
        ),
        result_view(result) == gp3_limits(
            volume_size_gb,
            volume_provisioned_iops,
            volume_provisioned_throughput,
        ),
{
    if volume_size_gb < MIN_VOLUME_SIZE_GB || volume_size_gb > MAX_VOLUME_SIZE_GB {
        return Err(
            LimitError::OutOfRange {
                field: Field::VolumeSize,
                value: volume_size_gb,
                min: MIN_VOLUME_SIZE_GB,
                max: MAX_VOLUME_SIZE_GB,
            },
        );
    }
    let volume_iops: u32 = match volume_provisioned_iops {
        None => GP3_BASELINE_IOPS,
        Some(iops) => {
            if iops < GP3_BASELINE_IOPS || iops > GP3_MAX_IOPS {
                return Err(
                    LimitError::OutOfRange {
                        field: Field::ProvisionedIops,
                        value: iops,
                        min: GP3_BASELINE_IOPS,
                        max: GP3_MAX_IOPS,
                    },
                );
            }
            if iops / volume_size_gb > GP3_MAX_IOPS_PER_GB {
                return Err(
                    LimitError::RatioViolation {
                        rule: RatioRule::IopsToSize,
                        iops,
                        divisor: volume_size_gb,
                        bound: GP3_MAX_IOPS_PER_GB,
                    },
                );
            }
            iops
        },
    };
    let volume_throughput: u32 = match volume_provisioned_throughput {
        None => GP3_BASELINE_THROUGHPUT,
        Some(throughput) => {
            if throughput < GP3_BASELINE_THROUGHPUT || throughput > GP3_MAX_THROUGHPUT {
                return Err(
                    LimitError::OutOfRange {
                        field: Field::ProvisionedThroughput,
                        value: throughput,
                        min: GP3_BASELINE_THROUGHPUT,
                        max: GP3_MAX_THROUGHPUT,
                    },
                );
            }
            if volume_iops / throughput < GP3_MIN_IOPS_PER_THROUGHPUT {
                return Err(
                    LimitError::RatioViolation {
                        rule: RatioRule::IopsToThroughput,
                        iops: volume_iops,
                        divisor: throughput,
                        bound: GP3_MIN_IOPS_PER_THROUGHPUT,
                    },
                );
            }
            throughput
        },
    };
    Ok(Limit { iops: volume_iops, speed: volume_throughput, burst_iops: 0, burst_speed: 0 })
}

/// The inputs break no rule exactly where they are admissible.
pub proof fn lemma_gp3_succeeds_iff_admissible(
    size: u32,
    provisioned_iops: Option<u32>,
    provisioned_throughput: Option<u32>,
)
    ensures
        gp3_limits(size, provisioned_iops, provisioned_throughput) is Ok <==> gp3_admissible(
            size,
            provisioned_iops,
            provisioned_throughput,
        ),
{
}

/// Where an input lies outside its interval, no limit is returned.
pub proof fn lemma_gp3_out_of_range_returns_no_limit(
    size: u32,
    provisioned_iops: Option<u32>,
    provisioned_throughput: Option<u32>,
)
    requires
        gp3_input_out_of_range(size, provisioned_iops, provisioned_throughput),
    ensures
        gp3_limits(size, provisioned_iops, provisioned_throughput) is Err,
{
}

/// Where an input lies outside its interval, the error is `OutOfRange`, unless
/// admissible IOPS on an admissible size break their ratio to the size: that
/// is found before the throughput is looked at.
pub proof fn lemma_gp3_refuses_input_out_of_range(
    size: u32,
    provisioned_iops: Option<u32>,
    provisioned_throughput: Option<u32>,
)
    requires
        gp3_input_out_of_range(size, provisioned_iops, provisioned_throughput),
        !(volume_size_admissible(size) && gp3_iops_exceed_ratio(size, provisioned_iops)),
    ensures
        gp3_limits(size, provisioned_iops, provisioned_throughput) matches Err(
            LimitError::OutOfRange { .. },
        ),
{
}

/// On a size that can be provisioned, a volume that provisions neither IOPS
/// nor throughput runs at the baseline of both.
pub proof fn lemma_gp3_baseline_when_nothing_provisioned(size: u32)
    requires
        volume_size_admissible(size),
    ensures
        gp3_limits(size, None, None) == Ok::<Envelope, LimitError>(
            Envelope { iops: 3000, speed: 125, burst_iops: 0, burst_speed: 0 },
        ),
{
}

/// Admissible IOPS that come to more than 500 whole IOPS per GiB of an
/// admissible size are a ratio violation, whatever the throughput.
pub proof fn lemma_gp3_iops_ratio_comes_before_throughput(
    size: u32,
    iops: u32,
    provisioned_throughput: Option<u32>,
)
    requires
        volume_size_admissible(size),
        gp3_iops_admissible(iops),
        iops / size > GP3_MAX_IOPS_PER_GB,
    ensures
        gp3_limits(size, Some(iops), provisioned_throughput) == Err::<Envelope, LimitError>(
            LimitError::RatioViolation {
                rule: RatioRule::IopsToSize,
                iops,
                divisor: size,
                bound: 500,
            },
        ),
{
}

/// What the whole quotients mean for an accepted volume: its throughput takes
/// at least four IOPS for each MiB/s, and IOPS that were provisioned come to
/// fewer than 501 per GiB.
pub proof fn lemma_gp3_accepted_ratios(
    size: u32,
    provisioned_iops: Option<u32>,
    provisioned_throughput: Option<u32>,
)
    requires
        gp3_admissible(size, provisioned_iops, provisioned_throughput),
    ensures
        4 * gp3_resolved_throughput(provisioned_throughput) <= gp3_resolved_iops(provisioned_iops),
        provisioned_iops matches Some(iops) ==> iops < 501 * size,
{
    if let Some(iops) = provisioned_iops {
        assert(iops < 501 * size) by (nonlinear_arith)
            requires
                size >= 1,
                iops / size <= 500,
        ;
    }
    if let Some(throughput) = provisioned_throughput {
        let iops: u32 = gp3_resolved_iops(provisioned_iops);
        assert(4 * throughput <= iops) by (nonlinear_arith)
            requires
                throughput >= 1,
                iops / throughput >= 4,
        ;
    }
}

/// The limits depend on the inputs alone: two results for the same inputs are
/// one result.
pub proof fn lemma_gp3_depends_on_inputs_alone(
    size: u32,
    provisioned_iops: Option<u32>,
    provisioned_throughput: Option<u32>,
    first: Result<Limit, LimitError>,
    second: Result<Limit, LimitError>,
)
    requires
        result_view(first) == gp3_limits(size, provisioned_iops, provisioned_throughput),
        result_view(second) == gp3_limits(size, provisioned_iops, provisioned_throughput),
    ensures
        first == second,
{
    lemma_result_view_is_injective(first, second);
}

} // verus!
