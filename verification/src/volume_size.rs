//! The sizes a volume can be provisioned with.

use vstd::prelude::*;

use crate::error::{Field, LimitError};

verus! {

/// The smallest volume that can be provisioned, in GiB.
pub const MIN_VOLUME_SIZE_GB: u32 = 1;

/// The largest volume that can be provisioned, in GiB.
pub const MAX_VOLUME_SIZE_GB: u32 = 16384;

/// Whether a volume of `size` GiB can be provisioned.
pub open spec fn volume_size_admissible(size: u32) -> bool {
    MIN_VOLUME_SIZE_GB <= size <= MAX_VOLUME_SIZE_GB
}

/// The error for a volume size that cannot be provisioned.
pub open spec fn volume_size_refused(size: u32) -> LimitError {
    LimitError::OutOfRange {
        field: Field::VolumeSize,
        value: size,
        min: MIN_VOLUME_SIZE_GB,
        max: MAX_VOLUME_SIZE_GB,
    }
}

} // verus!
