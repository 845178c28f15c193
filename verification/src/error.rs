//! Why a calculator refused its input.

use vstd::prelude::*;

verus! {

/// The input that a range check looked at.
#[derive(Debug, Clone, Copy, PartialEq, Eq, Structural)]
pub enum Field {
    /// The provisioned size of the volume, in GiB.
    VolumeSize,
    /// The provisioned operations per second.
    ProvisionedIops,
    /// The provisioned throughput, in MiB/s.
    ProvisionedThroughput,
}

/// A rule that ties two provisioned values together.
#[derive(Debug, Clone, Copy, PartialEq, Eq, Structural)]
pub enum RatioRule {
    /// The whole quotient of IOPS by volume size must not exceed 500.
    IopsToSize,
    /// The whole quotient of IOPS by throughput must not fall below 4.
    IopsToThroughput,
}

/// A refused input, with the values the check compared.
#[derive(Debug, Clone, Copy, PartialEq, Eq, Structural)]
pub enum LimitError {
    /// `value` lies outside `min ..= max`, the admissible interval of `field`.
    OutOfRange { field: Field, value: u32, min: u32, max: u32 },
    /// The whole quotient of `iops` by `divisor`, the size or the throughput,
    /// is on the wrong side of `bound`, as `rule` has it.
    RatioViolation { rule: RatioRule, iops: u32, divisor: u32, bound: u32 },
}

impl LimitError {
    /// The sentence that [`LimitError::message`] returns.
    pub open spec fn message_text(self) -> Seq<char> {
        match self {
            LimitError::OutOfRange { field: Field::VolumeSize, .. } =>
                "volume size is outside its admissible range"@,
            LimitError::OutOfRange { field: Field::ProvisionedIops, .. } =>
                "provisioned IOPS is outside its admissible range"@,
            LimitError::OutOfRange { field: Field::ProvisionedThroughput, .. } =>
                "provisioned throughput is outside its admissible range"@,
            LimitError::RatioViolation { rule: RatioRule::IopsToSize, .. } =>
                "IOPS-to-size ratio must not exceed 500:1"@,
            LimitError::RatioViolation { rule: RatioRule::IopsToThroughput, .. } =>
                "IOPS-to-throughput ratio must not be below 4:1"@,
        }
    }

    /// A short reason for a reader; the numbers are in the fields.
    pub fn message(&self) -> (text: &'static str)
        ensures
            text@ == self.message_text(),
    {
        match self {
            LimitError::OutOfRange { field: Field::VolumeSize, .. } =>
                "volume size is outside its admissible range",
            LimitError::OutOfRange { field: Field::ProvisionedIops, .. } =>
                "provisioned IOPS is outside its admissible range",
            LimitError::OutOfRange { field: Field::ProvisionedThroughput, .. } =>
                "provisioned throughput is outside its admissible range",
            LimitError::RatioViolation { rule: RatioRule::IopsToSize, .. } =>
                "IOPS-to-size ratio must not exceed 500:1",
            LimitError::RatioViolation { rule: RatioRule::IopsToThroughput, .. } =>
                "IOPS-to-throughput ratio must not be below 4:1",
        }
    }
}

} // verus!
