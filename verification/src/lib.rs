//! Performance envelopes of cloud block-storage volumes.
//!
//! Each calculator takes what was provisioned for a volume (its size, and for
//! some families its IOPS and throughput) and returns the [`Limit`] the
//! volume can sustain, or the [`LimitError`] that says which input was
//! refused. Every calculator is a pure function with an exact contract.
//!
//! - [`gp2`]: volumes whose limits follow from their size, in three tiers.
//! - [`gp3`]: volumes that provision IOPS and throughput, within ratio rules.
//! - [`io`]: volumes that provision IOPS, in two tiers.
//!
//! Each of these modules states what its calculator returns as a `spec`
//! function over [`Envelope`], the model of a [`Limit`], and proves the laws
//! that hold of it.

pub mod clamp;
pub mod error;
pub mod gp2;
pub mod gp3;
pub mod io;
pub mod limit;
pub mod volume_size;

pub use error::{Field, LimitError, RatioRule};
pub use gp2::calculate_gp2_limits;
pub use gp3::calculate_gp3_limits;
pub use io::calculate_io_limits;
pub use limit::{Envelope, Limit};
