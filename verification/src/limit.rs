//! The result shared by all calculators, and its mathematical model.

use vstd::prelude::*;

use crate::error::LimitError;

verus! {

/// What a volume can deliver: the model of a [`Limit`], over unbounded naturals.
pub struct Envelope {
    /// Sustained operations per second.
    pub iops: nat,
    /// Sustained throughput in MiB/s.
    pub speed: nat,
    /// Burst ceiling in operations per second, 0 where the volume cannot burst.
    pub burst_iops: nat,
    /// Burst ceiling in MiB/s, 0 where the volume cannot burst.
    pub burst_speed: nat,
}

/// The performance limits of one volume.
#[derive(Debug, Clone, Copy, PartialEq, Eq, Structural)]
pub struct Limit {
    /// Sustained operations per second.
    pub iops: u32,
    /// Sustained throughput in MiB/s.
    pub speed: u32,
    /// Burst ceiling in operations per second, 0 where the volume cannot burst.
    pub burst_iops: u32,
    /// Burst ceiling in MiB/s, 0 where the volume cannot burst.
    pub burst_speed: u32,
}

impl View for Limit {
    type V = Envelope;

    open spec fn view(&self) -> Envelope {
        Envelope {
            iops: self.iops as nat,
            speed: self.speed as nat,
            burst_iops: self.burst_iops as nat,
            burst_speed: self.burst_speed as nat,
        }
    }
}

impl Limit {
    /// The limit with every field at zero.
    pub fn default() -> (limit: Limit)
        ensures
            limit@ == (Envelope { iops: 0, speed: 0, burst_iops: 0, burst_speed: 0 }),
    {
        Limit { iops: 0, speed: 0, burst_iops: 0, burst_speed: 0 }
    }
}

/// The model of what a calculator returns: the envelope of the limit, or the error.
pub open spec fn result_view(result: Result<Limit, LimitError>) -> Result<Envelope, LimitError> {
    match result {
        Ok(limit) => Ok(limit@),
        Err(error) => Err(error),
    }
}

/// Results with one model are one result.
pub proof fn lemma_result_view_is_injective(
    first: Result<Limit, LimitError>,
    second: Result<Limit, LimitError>,
)
    requires
        result_view(first) == result_view(second),
    ensures
        first == second,
{
}

} // verus!
