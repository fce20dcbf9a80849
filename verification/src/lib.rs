//! Receive-side reassembly of ISO-TP (ISO 15765-2) transfers.
//!
//! A payload larger than one 8-byte link frame is segmented by the sender
//! into a First frame followed by Consecutive frames. [`TransportDecoder`]
//! is fed those frames one at a time, in arrival order, and accumulates the
//! payload in a fixed-capacity buffer. The abstract behaviour of the decoder
//! is the transition function [`model::step`], which every method's contract
//! is stated against; the laws that follow from it are proved in [`laws`].

use vstd::prelude::*;

pub mod error;
pub mod laws;
pub mod model;

pub use crate::error::Error;

verus! {

/// Max number of data bytes per frame.
pub const MAX_DATA_BYTES_PER_FRAME: usize = 7;

/// Number of bytes in a single CAN frame.
pub const NUM_BYTES_PER_FRAME: usize = 8;

/// Maximum number of bytes that can be sent in a single transmission.
pub const MAX_BYTES_PER_TRANSFER: usize = 4095;

/// The kind of a frame, carried in the high nibble of its first byte. It
/// determines what the remaining bits of the frame hold.
#[derive(Debug, Default, Copy, Clone, PartialEq, Eq, Structural)]
pub enum FrameType {
    /// The single frame transferred contains the complete payload.
    #[default]
    Single,
    /// The first frame of a longer multi-frame message packet.
    First,
    /// A frame containing subsequent data for a multi-frame packet.
    Consecutive,
    /// The response from the receiver acknowledging the first-frame segment.
    FlowControl,
}

/// The frame kind a raw nibble decodes to. Wire decode is permissive: the
/// values 1, 2 and 3 name the First, Consecutive and FlowControl kinds, and
/// every other value falls back to Single.
pub open spec fn frame_type_of(value: u8) -> FrameType {
    if value == 1 {
        FrameType::First
    } else if value == 2 {
        FrameType::Consecutive
    } else if value == 3 {
        FrameType::FlowControl
    } else {
        FrameType::Single
    }
}

impl From<u8> for FrameType {
    fn from(value: u8) -> (r: Self) {
        if value == 1 {
            FrameType::First
        } else if value == 2 {
            FrameType::Consecutive
        } else if value == 3 {
            FrameType::FlowControl
        } else {
            FrameType::Single
        }
    }
}

impl vstd::std_specs::convert::FromSpecImpl<u8> for FrameType {
    open spec fn obeys_from_spec() -> bool {
        true
    }

    open spec fn from_spec(value: u8) -> FrameType {
        frame_type_of(value)
    }
}

/// The status a FlowControl frame reports. Defined for wire completeness:
/// the reassembly path does not act on FlowControl frames.
#[derive(Debug, Default, Copy, Clone, PartialEq, Eq, Structural)]
pub enum FlowControlStatus {
    /// Continue to send (transfer is allowed)
    Continue,
    /// Wait to send (transfer should be delayed)
    Wait,
    /// Overflow/abort (transfer is blocked)
    Overflow,
    /// Unknown value
    #[default]
    Unknown,
}

/// The flow-control status a raw byte decodes to: 0, 1 and 2 name the
/// Continue, Wait and Overflow statuses, and every other value falls back
/// to Unknown.
pub open spec fn flow_control_status_of(value: u8) -> FlowControlStatus {
    if value == 0 {
        FlowControlStatus::Continue
    } else if value == 1 {
        FlowControlStatus::Wait
    } else if value == 2 {
        FlowControlStatus::Overflow
    } else {
        FlowControlStatus::Unknown
    }
}

impl From<u8> for FlowControlStatus {
    fn from(value: u8) -> (r: Self) {
        if value == 0 {
            FlowControlStatus::Continue
        } else if value == 1 {
            FlowControlStatus::Wait
        } else if value == 2 {
            FlowControlStatus::Overflow
        } else {
            FlowControlStatus::Unknown
        }
    }
}

impl vstd::std_specs::convert::FromSpecImpl<u8> for FlowControlStatus {
    open spec fn obeys_from_spec() -> bool {
        true
    }

    open spec fn from_spec(value: u8) -> FlowControlStatus {
        flow_control_status_of(value)
    }
}

/// Represents a single packet in an ISO-TP exchange.
#[allow(dead_code)]
#[derive(Debug, Default, Clone)]
pub struct TransportData {
    index: u8,
    data_len: u8,
    data: [u8; MAX_DATA_BYTES_PER_FRAME],
}

/// Defines the Flow Control message, which is sent by the receiver in
/// response to the First Frame message. Defined structurally; the
/// reassembly path neither produces nor consumes it.
#[allow(dead_code)]
#[derive(Debug, Default, Clone)]
pub struct FlowControl {
    /// Indicates if the transfer is allowed.
    status: FlowControlStatus,
    /// Number of frames that can be safely sent before waiting for the next
    /// flow control frame from the receiver. A value of zero allows the
    /// remaining frames to be sent without flow control or delay.
    block_size: u8,
    /// Minimum requested time delay between frames.
    /// * Values 0-127: delay time in milliseconds
    /// * Values 241-249: delay values increasing from 100-900 microseconds
    separation_time: u8,
}

/// Segments an outbound payload into ISO-TP frames. An unimplemented
/// future capability: the receive side below does not depend on it.
pub struct TransportEncoder {}

/// Reassembles one ISO-TP transfer from 8-byte frames.
///
/// The decoder owns a fixed buffer of `N` bytes and is fed frames one at a
/// time, in arrival order, through [`Self::update`]. One instance serves one
/// transfer: after completion or an error there is no reset, and a caller
/// starting over must construct a fresh instance.
#[derive(Debug, Clone)]
pub struct TransportDecoder<const N: usize> {
    /// Data packets collected so far.
    data: [u8; N],
    /// The expected number of bytes to receive.
    expected_length: u16,
    /// The number of bytes received so far.
    current_length: u16,
    /// Track what the next expected index is, kept below 16.
    next_index: u8,
}

impl<const N: usize> View for TransportDecoder<N> {
    type V = model::DecoderModel;

    closed spec fn view(&self) -> model::DecoderModel {
        model::DecoderModel {
            capacity: N as nat,
            expected: self.expected_length as nat,
            received: self.current_length as nat,
            next_index: self.next_index as nat,
            stored: self.data@.take(self.current_length as int),
        }
    }
}

impl<const N: usize> TransportDecoder<N> {
    /// Maximum number of bytes a transfer can declare, whatever the
    /// capacity: the 12-bit length field of a First frame cannot say more.
    pub const MAX_RECV_BYTES: usize = MAX_BYTES_PER_TRANSFER;

    /// Create a new empty decoder for a single transfer.
    pub fn new() -> (r: Self)
        ensures
            r@ == model::DecoderModel::fresh(N as nat),
            r@.wf(),
    {
        let r = Self { data: [0; N], expected_length: 0, current_length: 0, next_index: 0 };
        proof {
            assert(r@ =~= model::DecoderModel::fresh(N as nat));
        }
        r
    }

    /// Maximum size of transfer that this decoder can accept.
    pub fn max_size(&self) -> (r: usize)
        ensures
            r == N,
    {
        N
    }

    /// Update the decoder with a new frame. The input frame is expected to
    /// be 8 bytes long.
    /// * If the frame completes the transfer, returns `Ok(Some(size))`,
    ///   where `size` is the number of bytes in the message.
    /// * If the transfer is not complete yet, returns `Ok(None)`.
    /// * If the frame cannot be accepted, returns the error and leaves the
    ///   decoder exactly as it was.
    ///
    /// The state the call leaves behind and the result it returns are,
    /// case by case, what [`model::step`] says.
    pub fn update(&mut self, frame: &[u8; NUM_BYTES_PER_FRAME]) -> (r: Result<Option<usize>, Error>)
        requires
            old(self)@.wf(),
        ensures
            final(self)@ == model::step(old(self)@, frame@).0,
            r == model::step(old(self)@, frame@).1,
            final(self)@.wf(),
    {
        proof {
            model::lemma_step_preserves_wf(old(self)@, frame@);
        }
        // Check frame type (upper four bits of first byte)
        let frame_type = FrameType::from(frame[0] >> 4);
        match frame_type {
            FrameType::Single => {
                // Data size is lower 4 bits of first byte
                let data_length = (frame[0] & 0xF) as usize;
                if data_length > MAX_DATA_BYTES_PER_FRAME {
                    return Err(
                        Error::Overflow(data_length as u16, MAX_DATA_BYTES_PER_FRAME as u16),
                    );
                }
                if data_length > N {
                    // The declared payload would not fit the buffer.
                    return Err(Error::BufferTooSmall(N as u16, data_length as u16));
                }
                let mut i: usize = 0;
                while i < data_length
                    invariant
                        i <= data_length,
                        data_length <= MAX_DATA_BYTES_PER_FRAME,
                        data_length <= N,
                        frame@.len() == 8,
                        self.next_index == old(self).next_index,
                        forall|k: int| 0 <= k < i ==> self.data@[k] == frame@[k + 1],
                    decreases data_length - i,
                {
                    self.data[i] = frame[i + 1];
                    i += 1;
                }
                self.expected_length = data_length as u16;
                self.current_length = data_length as u16;
                proof {
                    assert(self@ =~= model::step(old(self)@, frame@).0);
                }
                Ok(Some(data_length))
            },
            FrameType::First => {
                // Size is the low nibble of byte 0 (high bits) and byte 1.
                let expected_length: u16 = ((frame[0] & 0xF) as u16) * 256 + (frame[1] as u16);

                // Make sure internal buffer can handle this transfer.
                if expected_length as usize > N {
                    return Err(Error::BufferTooSmall(N as u16, expected_length));
                }
                self.expected_length = expected_length;

                // The rest of this frame is the first chunk of data, clipped
                // to the declared total so `received <= expected` holds even
                // for a declared length under 6.
                let data_length: usize = if (expected_length as usize) < 6 {
                    expected_length as usize
                } else {
                    6
                };
                let mut i: usize = 0;
                while i < data_length
                    invariant
                        i <= data_length,
                        data_length <= 6,
                        data_length <= N,
                        frame@.len() == 8,
                        self.expected_length == expected_length,
                        forall|k: int| 0 <= k < i ==> self.data@[k] == frame@[k + 2],
                    decreases data_length - i,
                {
                    self.data[i] = frame[i + 2];
                    i += 1;
                }
                self.current_length = data_length as u16;
                self.next_index = 1;
                proof {
                    assert(self@ =~= model::step(old(self)@, frame@).0);
                }
                Ok(None)
            },
            FrameType::Consecutive => {
                // Index increases by one every time, then rolls over after 15.
                let expected_index = self.next_index;
                let actual_index = frame[0] & 0xF;
                if expected_index == actual_index {
                    self.next_index = (self.next_index + 1) % 16;

                    // Copy data only up to the expected length.
                    let data_remaining = (self.expected_length - self.current_length) as usize;
                    let data_length = if data_remaining < MAX_DATA_BYTES_PER_FRAME {
                        data_remaining
                    } else {
                        MAX_DATA_BYTES_PER_FRAME
                    };

                    let data_start = self.current_length as usize;
                    let ghost next_index_now = self.next_index;
                    let mut i: usize = 0;
                    while i < data_length
                        invariant
                            i <= data_length,
                            data_length <= MAX_DATA_BYTES_PER_FRAME,
                            data_start + data_length <= N,
                            frame@.len() == 8,
                            self.next_index == next_index_now,
                            self.expected_length == old(self).expected_length,
                            self.current_length == old(self).current_length,
                            data_start == self.current_length as usize,
                            forall|k: int|
                                data_start <= k < data_start + i ==> #[trigger] self.data@[k]
                                    == frame@[k - data_start + 1],
                            forall|k: int|
                                0 <= k < data_start ==> self.data@[k] == old(self).data@[k],
                        decreases data_length - i,
                    {
                        self.data[data_start + i] = frame[i + 1];
                        i += 1;
                    }

                    self.current_length = self.current_length + data_length as u16;
                    proof {
                        assert(self@ =~= model::step(old(self)@, frame@).0);
                    }
                    if self.ready() {
                        Ok(Some(self.current_length as usize))
                    } else {
                        Ok(None)
                    }
                } else {
                    Err(Error::MissedFrame(expected_index, actual_index))
                }
            },
            FrameType::FlowControl => {
                // Reserved for future use; the pacing fields are not
                // interpreted here.
                Ok(None)
            },
        }
    }

    /// Returns true if the data is ready to view.
    pub fn ready(&self) -> (r: bool)
        ensures
            r == self@.is_ready(),
    {
        self.expected_length == self.current_length
    }

    /// Gets the completed data buffer, if ready.
    /// If not ready, returns None. Read-only: the slice is the same on
    /// every call while the decoder is unchanged.
    pub fn data(&self) -> (r: Option<&[u8]>)
        requires
            self@.wf(),
        ensures
            r is Some <==> self@.is_ready(),
            r is Some ==> r->Some_0@ == self@.stored,
    {
        if self.ready() {
            let length = self.expected_length as usize;
            Some(vstd::slice::slice_subrange(self.data.as_slice(), 0, length))
        } else {
            None
        }
    }
}

} // verus!
