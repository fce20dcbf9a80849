//! The laws of the reassembly decoder, proved over [`crate::model::step`].
//!
//! Each proof function here states one guarantee of the decoder for every
//! input it speaks of: the single-frame round trip, the rejection of
//! oversized single frames, the multi-frame round trip over the standard
//! segmentation, the rejection of out-of-order Consecutive frames, and the
//! rejection of transfers larger than the buffer.

use vstd::arithmetic::div_mod::lemma_add_mod_noop;
use vstd::arithmetic::div_mod::lemma_fundamental_div_mod;
use vstd::prelude::*;

use crate::error::Error;
use crate::model::consecutive_index;
use crate::model::first_length;
use crate::model::single_length;
use crate::model::step;
use crate::model::DecoderModel;

verus! {

/// Law: a Single frame carrying a payload of length up to 7 that fits the
/// buffer completes the transfer in one step, with the payload stored and
/// the declared size returned.
pub proof fn lemma_single_frame_round_trip(s: DecoderModel, frame: Seq<u8>, payload: Seq<u8>)
    requires
        s.wf(),
        frame.len() == 8,
        payload.len() <= 7,
        payload.len() <= s.capacity,
        frame[0] == payload.len() as u8,
        frame.subrange(1, 1 + payload.len() as int) == payload,
    ensures
        step(s, frame).1 == Ok::<Option<usize>, Error>(Some(payload.len() as usize)),
        step(s, frame).0.is_ready(),
        step(s, frame).0.stored == payload,
        step(s, frame).0.expected == payload.len(),
{
    let b = frame[0];
    assert(b >> 4 == 0 && b & 0xF == b) by (bit_vector)
        requires
            b <= 7,
    ;
}

/// Law: a Single frame whose low nibble declares more than the 7 bytes one
/// frame can carry is rejected as `Overflow`, the state is untouched, and a
/// transfer that was incomplete stays incomplete.
pub proof fn lemma_single_frame_overflow(s: DecoderModel, frame: Seq<u8>)
    requires
        s.wf(),
        frame.len() == 8,
        frame[0] >> 4 == 0,
        frame[0] & 0xF > 7,
    ensures
        step(s, frame).0 == s,
        step(s, frame).1 == Err::<Option<usize>, Error>(
            Error::Overflow(single_length(frame) as u16, 7),
        ),
        step(s, frame).0.is_ready() == s.is_ready(),
{
}

/// Law: a Consecutive frame whose index differs from the required next
/// index is rejected as `MissedFrame`, naming the required and the actual
/// index; the state is untouched, so an incomplete transfer stays
/// incomplete.
pub proof fn lemma_sequence_violation(s: DecoderModel, frame: Seq<u8>)
    requires
        s.wf(),
        frame.len() == 8,
        frame[0] >> 4 == 2,
        consecutive_index(frame) != s.next_index,
    ensures
        step(s, frame).0 == s,
        step(s, frame).1 == Err::<Option<usize>, Error>(
            Error::MissedFrame(s.next_index as u8, (frame[0] & 0xF) as u8),
        ),
        step(s, frame).0.is_ready() == s.is_ready(),
{
}

/// Law: a First frame declaring a total length greater than the buffer
/// capacity is rejected as `BufferTooSmall`, naming the capacity and the
/// declared length, and the state is untouched.
pub proof fn lemma_capacity_violation(s: DecoderModel, frame: Seq<u8>)
    requires
        s.wf(),
        frame.len() == 8,
        frame[0] >> 4 == 1,
        first_length(frame) > s.capacity,
    ensures
        step(s, frame).0 == s,
        step(s, frame).1 == Err::<Option<usize>, Error>(
            Error::BufferTooSmall(s.capacity as u16, first_length(frame) as u16),
        ),
{
}

/// The First frame of the standard segmentation of `payload`: the high
/// nibble of byte 0 is 1, its low nibble and byte 1 hold the 12-bit total
/// length, and the remaining 6 bytes are the first 6 payload bytes.
pub open spec fn first_frame(payload: Seq<u8>) -> Seq<u8>
    recommends
        6 <= payload.len() <= 4095,
{
    seq![(16 + payload.len() / 256) as u8, (payload.len() % 256) as u8] + payload.subrange(0, 6)
}

/// The `k`-th Consecutive frame (`k >= 1`) of the standard segmentation of
/// `payload`: the high nibble of byte 0 is 2, its low nibble the sequence
/// index `k` modulo 16, and the remaining 7 bytes the `k`-th 7-byte chunk
/// of the payload after its first 6 bytes, zero-padded past the end.
pub open spec fn consecutive_frame(payload: Seq<u8>, k: nat) -> Seq<u8>
    recommends
        1 <= k,
{
    seq![(32 + k % 16) as u8] + Seq::new(
        7,
        |i: int|
            if 6 + 7 * (k - 1) + i < payload.len() {
                payload[6 + 7 * (k - 1) + i]
            } else {
                0u8
            },
    )
}

/// The number of Consecutive frames the standard segmentation of a payload
/// of `len` bytes uses after its First frame: the ceiling of (len - 6) / 7.
pub open spec fn num_consecutive_frames(len: nat) -> nat
    recommends
        6 <= len,
{
    (((len - 6) + 6) / 7) as nat
}

/// The decoder state reached after the First frame and the first `j`
/// Consecutive frames of the standard segmentation of `payload`.
pub open spec fn mid_state(capacity: nat, payload: Seq<u8>, j: nat) -> DecoderModel {
    let received = if 6 + 7 * j < payload.len() {
        6 + 7 * j
    } else {
        payload.len()
    };
    DecoderModel {
        capacity,
        expected: payload.len(),
        received,
        next_index: (j + 1) % 16,
        stored: payload.subrange(0, received as int),
    }
}

/// Law: from any well-formed state, the First frame of a payload that fits
/// the buffer is reported "not complete" and leaves the decoder holding the
/// first 6 payload bytes, expecting the rest.
pub proof fn lemma_first_frame_step(s: DecoderModel, payload: Seq<u8>)
    requires
        s.wf(),
        8 <= payload.len() <= 4095,
        payload.len() <= s.capacity,
    ensures
        step(s, first_frame(payload)).0 == mid_state(s.capacity, payload, 0),
        step(s, first_frame(payload)).1 == Ok::<Option<usize>, Error>(None),
{
    let frame = first_frame(payload);
    let hi = (payload.len() / 256) as u8;
    let b0 = frame[0];
    assert(b0 == 16 + hi);
    assert(b0 >> 4 == 1 && b0 & 0xF == hi) by (bit_vector)
        requires
            hi <= 15 && b0 == 16 + hi,
    ;
    lemma_fundamental_div_mod(payload.len() as int, 256);
    assert(first_length(frame) == payload.len());
    assert(step(s, frame).0.stored =~= payload.subrange(0, 6));
    assert(step(s, frame).0 =~= mid_state(s.capacity, payload, 0));
}

/// Law: after the First frame and `j` Consecutive frames of the standard
/// segmentation, while bytes are still missing, the next Consecutive frame
/// is accepted, appends its chunk in order, and is reported "not complete"
/// exactly when bytes are still missing afterwards — and reported complete,
/// with the payload length, when it was the last.
pub proof fn lemma_consecutive_frame_step(capacity: nat, payload: Seq<u8>, j: nat)
    requires
        8 <= payload.len() <= 4095,
        payload.len() <= capacity,
        6 + 7 * j < payload.len(),
    ensures
        step(mid_state(capacity, payload, j), consecutive_frame(payload, j + 1)).0 == mid_state(
            capacity,
            payload,
            j + 1,
        ),
        step(mid_state(capacity, payload, j), consecutive_frame(payload, j + 1)).1 == (if 6 + 7 * (
        j + 1) < payload.len() {
            Ok::<Option<usize>, Error>(None)
        } else {
            Ok::<Option<usize>, Error>(Some(payload.len() as usize))
        }),
{
    let pre = mid_state(capacity, payload, j);
    let frame = consecutive_frame(payload, j + 1);
    let m = ((j + 1) % 16) as u8;
    let b0 = frame[0];
    assert(b0 == 32 + m);
    assert(b0 >> 4 == 2 && b0 & 0xF == m) by (bit_vector)
        requires
            m <= 15 && b0 == 32 + m,
    ;
    assert(consecutive_index(frame) == pre.next_index);
    lemma_add_mod_noop((j + 1) as int, 1, 16);
    assert(step(pre, frame).0.next_index == mid_state(capacity, payload, j + 1).next_index);
    let received = mid_state(capacity, payload, j + 1).received;
    assert(step(pre, frame).0.stored =~= payload.subrange(0, received as int));
    assert(step(pre, frame).0 =~= mid_state(capacity, payload, j + 1));
}

/// The state after feeding `frames` one at a time, in order, ignoring the
/// per-frame results.
pub open spec fn feed_frames(s: DecoderModel, frames: Seq<Seq<u8>>) -> DecoderModel
    decreases frames.len(),
{
    if frames.len() == 0 {
        s
    } else {
        feed_frames(step(s, frames[0]).0, frames.subrange(1, frames.len() as int))
    }
}

/// The Consecutive frames numbered `from`, `from + 1`, ..., `count` of them,
/// of the standard segmentation of `payload`.
pub open spec fn consecutive_frames(payload: Seq<u8>, from: nat, count: nat) -> Seq<Seq<u8>> {
    Seq::new(count, |k: int| consecutive_frame(payload, from + k as nat))
}

/// The standard segmentation of `payload` into one First frame followed by
/// its Consecutive frames in sequence order.
pub open spec fn multi_frame_encoding(payload: Seq<u8>) -> Seq<Seq<u8>>
    recommends
        8 <= payload.len() <= 4095,
{
    seq![first_frame(payload)] + consecutive_frames(
        payload,
        1,
        num_consecutive_frames(payload.len()),
    )
}

proof fn lemma_feed_consecutives(capacity: nat, payload: Seq<u8>, j: nat)
    requires
        8 <= payload.len() <= 4095,
        payload.len() <= capacity,
        j <= num_consecutive_frames(payload.len()),
    ensures
        feed_frames(
            mid_state(capacity, payload, j),
            consecutive_frames(
                payload,
                j + 1,
                (num_consecutive_frames(payload.len()) - j) as nat,
            ),
        ) == mid_state(capacity, payload, num_consecutive_frames(payload.len())),
    decreases num_consecutive_frames(payload.len()) - j,
{
    let len = payload.len();
    let m = num_consecutive_frames(len);
    if j == m {
        assert(consecutive_frames(payload, j + 1, 0).len() == 0);
    } else {
        lemma_fundamental_div_mod(len as int, 7);
        assert(6 + 7 * j < len);
        lemma_consecutive_frame_step(capacity, payload, j);
        let frames = consecutive_frames(payload, j + 1, (m - j) as nat);
        assert(frames[0] == consecutive_frame(payload, j + 1));
        assert(frames.subrange(1, frames.len() as int) =~= consecutive_frames(
            payload,
            j + 2,
            (m - j - 1) as nat,
        ));
        lemma_feed_consecutives(capacity, payload, j + 1);
    }
}

/// Law: the multi-frame round trip. For any payload of length 8 up to the
/// buffer capacity (and at most the 4095-byte transfer ceiling), feeding
/// the standard segmentation — the First frame, then every Consecutive
/// frame in sequence order — into a well-formed decoder ends with the
/// transfer complete and exactly the payload stored. Together with
/// [`lemma_first_frame_step`] and [`lemma_consecutive_frame_step`], which
/// give each frame's reported result, every frame but the last reports
/// "not complete" and the last reports completion with the payload length.
pub proof fn lemma_multi_frame_round_trip(s: DecoderModel, payload: Seq<u8>)
    requires
        s.wf(),
        8 <= payload.len() <= 4095,
        payload.len() <= s.capacity,
    ensures
        feed_frames(s, multi_frame_encoding(payload)).is_ready(),
        feed_frames(s, multi_frame_encoding(payload)).expected == payload.len(),
        feed_frames(s, multi_frame_encoding(payload)).stored == payload,
{
    let len = payload.len();
    let m = num_consecutive_frames(len);
    let frames = multi_frame_encoding(payload);
    lemma_first_frame_step(s, payload);
    assert(frames[0] == first_frame(payload));
    assert(frames.subrange(1, frames.len() as int) =~= consecutive_frames(payload, 1, m));
    lemma_feed_consecutives(s.capacity, payload, 0);
    lemma_fundamental_div_mod(len as int, 7);
    assert(mid_state(s.capacity, payload, m).received == len);
    assert(mid_state(s.capacity, payload, m).stored =~= payload);
}

} // verus!
