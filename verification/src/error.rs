//! The error taxonomy for ISO-TP reassembly.

use vstd::prelude::*;

verus! {

/// A fault detected while reassembling a transfer. Every error is terminal
/// for the transfer in progress: the decoder does not reset itself, and the
/// caller must construct a fresh instance to start over. Each variant
/// carries the numeric context needed to diagnose the fault.
#[derive(Debug, Clone, Copy, PartialEq, Eq, Structural)]
pub enum Error {
    /// A Single frame declared more payload bytes than one frame can carry:
    /// the declared length, then the per-frame limit.
    Overflow(u16, u16),
    /// A Consecutive frame arrived out of order: the required sequence
    /// index, then the index the frame presented.
    MissedFrame(u8, u8),
    /// A frame declared a payload larger than this decoder's buffer: the
    /// buffer capacity, then the declared length.
    BufferTooSmall(u16, u16),
}

} // verus!
