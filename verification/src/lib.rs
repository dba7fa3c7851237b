//! Reads per-page metadata records of the kind the kernel exposes for a
//! process, decodes them bit-exactly, and measures how physically contiguous
//! a virtual range is by grouping frame numbers into runs and a length
//! histogram.

pub mod codec;
pub mod contig;
pub mod reader;

use vstd::prelude::*;

verus! {

/// How an operation on the page metadata can fail.
///
/// `ContractViolation` marks a caller bug (a misaligned address or range);
/// `IoFailure` marks a read that could not complete (short read);
/// `FrameNotVisible` marks an entry whose frame number decoded as zero,
/// which the kernel uses when the caller lacks the privilege to see it.
#[derive(Copy, Clone, PartialEq, Eq, Debug, Structural)]
pub enum FragError {
    ContractViolation,
    IoFailure,
    FrameNotVisible,
}

} // verus!

