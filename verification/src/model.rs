//! The abstract state of a decoder and its transition function.
//!
//! [`DecoderModel`] is what a [`crate::TransportDecoder`] looks like through
//! its view, and [`step`] says what one `update` call does to it: which new
//! state it leaves behind and which result it returns. Every contract of the
//! decoder, and every law in [`crate::laws`], speaks of these two.

use vstd::prelude::*;

use crate::error::Error;
use crate::frame_type_of;
use crate::FrameType;
use crate::MAX_DATA_BYTES_PER_FRAME;

verus! {

/// The abstract state of a reassembly decoder.
#[verifier::ext_equal]
pub ghost struct DecoderModel {
    /// The fixed capacity of the accumulation buffer.
    pub capacity: nat,
    /// The total payload size, once a Single or First frame has declared it.
    pub expected: nat,
    /// How many payload bytes have been accumulated so far.
    pub received: nat,
    /// The sequence index the next Consecutive frame must present, kept in
    /// 0..16 (the index rolls over after 15).
    pub next_index: nat,
    /// The payload bytes accumulated so far, in order.
    pub stored: Seq<u8>,
}

impl DecoderModel {
    /// The state a freshly constructed decoder is in.
    pub open spec fn fresh(capacity: nat) -> DecoderModel {
        DecoderModel {
            capacity,
            expected: 0,
            received: 0,
            next_index: 0,
            stored: Seq::empty(),
        }
    }

    /// Well-formedness: the accumulated bytes are exactly the received
    /// count, never more than the declared total, which in turn fits the
    /// buffer; the rolling sequence index stays below 16.
    pub open spec fn wf(self) -> bool {
        &&& self.stored.len() == self.received
        &&& self.received <= self.expected
        &&& self.expected <= self.capacity
        &&& self.next_index < 16
    }

    /// The transfer is complete: every declared byte has arrived.
    pub open spec fn is_ready(self) -> bool {
        self.received == self.expected
    }
}

/// The kind of an 8-byte frame, read from the high nibble of its first byte.
pub open spec fn frame_kind(frame: Seq<u8>) -> FrameType {
    frame_type_of(frame[0] >> 4)
}

/// The payload length a Single frame declares: the low nibble of byte 0.
pub open spec fn single_length(frame: Seq<u8>) -> nat {
    (frame[0] & 0xF) as nat
}

/// The 12-bit total transfer length a First frame declares: the low nibble
/// of byte 0 as the high bits, byte 1 as the low bits.
pub open spec fn first_length(frame: Seq<u8>) -> nat {
    (frame[0] & 0xF) as nat * 256 + frame[1] as nat
}

/// The sequence index a Consecutive frame presents: the low nibble of
/// byte 0.
pub open spec fn consecutive_index(frame: Seq<u8>) -> nat {
    (frame[0] & 0xF) as nat
}

/// What one `update` call does: the state it leaves behind and the result
/// it returns, for a well-formed state and an 8-byte frame.
///
/// - A Single frame resolves a whole transfer at once. A declared length
///   over the per-frame maximum is rejected as `Overflow`; one over the
///   buffer capacity is rejected as `BufferTooSmall`, so the buffer bound
///   `expected <= capacity` holds on every accepted path.
/// - A First frame declares the total length and carries the first 6
///   payload bytes. A declared length over the capacity is rejected as
///   `BufferTooSmall`. At most `expected` bytes are taken from the frame,
///   so a declared length under 6 (which a sender should have put in a
///   Single frame) cannot push `received` past `expected`. The result is
///   "not complete" unconditionally, even when the declared length is
///   already covered.
/// - A Consecutive frame must present the required sequence index; a
///   mismatch is rejected as `MissedFrame` with the state untouched.
///   On a match the index advances modulo 16 and up to 7 bytes are
///   appended, clipped to the declared total; the result reports
///   completion exactly when every declared byte has now arrived.
/// - A FlowControl frame changes nothing and reports "not complete".
///
/// Every error leaves the state exactly as it was.
pub open spec fn step(s: DecoderModel, frame: Seq<u8>) -> (DecoderModel, Result<
    Option<usize>,
    Error,
>)
    recommends
        s.wf(),
        frame.len() == 8,
{
    match frame_kind(frame) {
        FrameType::Single => {
            let len = single_length(frame);
            if len > MAX_DATA_BYTES_PER_FRAME as nat {
                (s, Err(Error::Overflow(len as u16, MAX_DATA_BYTES_PER_FRAME as u16)))
            } else if len > s.capacity {
                (s, Err(Error::BufferTooSmall(s.capacity as u16, len as u16)))
            } else {
                (
                    DecoderModel {
                        expected: len,
                        received: len,
                        stored: frame.subrange(1, 1 + len as int),
                        ..s
                    },
                    Ok(Some(len as usize)),
                )
            }
        },
        FrameType::First => {
            let len = first_length(frame);
            if len > s.capacity {
                (s, Err(Error::BufferTooSmall(s.capacity as u16, len as u16)))
            } else {
                let copied = if len < 6 {
                    len
                } else {
                    6
                };
                (
                    DecoderModel {
                        expected: len,
                        received: copied,
                        next_index: 1,
                        stored: frame.subrange(2, 2 + copied as int),
                        ..s
                    },
                    Ok(None),
                )
            }
        },
        FrameType::Consecutive => {
            let actual = consecutive_index(frame);
            if actual != s.next_index {
                (s, Err(Error::MissedFrame(s.next_index as u8, actual as u8)))
            } else {
                let remaining = (s.expected - s.received) as nat;
                let chunk = if remaining < MAX_DATA_BYTES_PER_FRAME as nat {
                    remaining
                } else {
                    MAX_DATA_BYTES_PER_FRAME as nat
                };
                let received = s.received + chunk;
                (
                    DecoderModel {
                        received,
                        next_index: (s.next_index + 1) % 16,
                        stored: s.stored + frame.subrange(1, 1 + chunk as int),
                        ..s
                    },
                    if received == s.expected {
                        Ok(Some(s.expected as usize))
                    } else {
                        Ok(None)
                    },
                )
            }
        },
        FrameType::FlowControl => (s, Ok(None)),
    }
}

/// Law: a step from a well-formed state leaves a well-formed state, and a
/// step that fails leaves the state exactly as it was.
pub proof fn lemma_step_preserves_wf(s: DecoderModel, frame: Seq<u8>)
    requires
        s.wf(),
        frame.len() == 8,
    ensures
        step(s, frame).0.wf(),
        step(s, frame).1 is Err ==> step(s, frame).0 == s,
        step(s, frame).0.capacity == s.capacity,
{
}

} // verus!
