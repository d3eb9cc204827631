//! Decoding what the device sends: a frame of stuffed bytes to its payload,
//! and a payload to a switch record.
//!
//! A frame is a run of bytes closed by a zero byte. Inside it no zero byte
//! occurs: each zero of the payload was replaced by the distance to the next
//! one, and the byte at the head of the frame holds the distance to the first.
//! Decoding follows these distances from the head, puts the zeros back, and
//! drops the head and the closing byte.

use crate::device::switch::{SwitchInfo, SwitchKind};
use vstd::prelude::*;
use vstd::slice::*;

verus! {

/// How many bytes of `frame` lie at or after `from`.
pub open spec fn left_from(frame: Seq<u8>, from: int) -> nat {
    if from <= frame.len() {
        (frame.len() - from) as nat
    } else {
        0
    }
}

/// Whether the walk over `frame` that sets out at `from` reads the byte at
/// `at` as a distance. The walk reads a distance where it stands and moves on
/// by it, until it reads zero or leaves the frame.
pub open spec fn reads_at(frame: Seq<u8>, from: int, at: int) -> bool
    decreases left_from(frame, from),
{
    if 0 <= from < frame.len() {
        at == from || (frame[from] != 0 && reads_at(frame, from + frame[from], at))
    } else {
        false
    }
}

/// Whether the walk over `frame` that sets out at `from` comes to a distance
/// of zero inside the frame.
pub open spec fn walk_ends(frame: Seq<u8>, from: int) -> bool
    decreases left_from(frame, from),
{
    if 0 <= from < frame.len() {
        frame[from] == 0 || walk_ends(frame, from + frame[from])
    } else {
        false
    }
}

/// Whether the walk over `frame` that sets out at `from` steps past the end of
/// the frame before it has read a distance of zero.
pub open spec fn walk_overruns(frame: Seq<u8>, from: int) -> bool
    decreases left_from(frame, from),
{
    if 0 <= from < frame.len() {
        frame[from] != 0 && walk_overruns(frame, from + frame[from])
    } else {
        from >= frame.len()
    }
}

/// Whether `frame` can be decoded: it is closed by a zero byte, and the walk
/// from its head ends inside it.
pub open spec fn well_framed(frame: Seq<u8>) -> bool {
    frame.len() > 0 && frame.last() == 0 && walk_ends(frame, 0)
}

/// The frame with a zero at each place where the walk from the head read a
/// distance.
pub open spec fn unstuffed(frame: Seq<u8>) -> Seq<u8> {
    Seq::new(
        frame.len(),
        |at: int|
            if reads_at(frame, 0, at) {
                0u8
            } else {
                frame[at]
            },
    )
}

/// The payload of `frame`: what lies between its head and its closing byte,
/// with the zeros put back. A frame of the closing byte alone has the empty
/// payload.
pub open spec fn payload_of(frame: Seq<u8>) -> Seq<u8> {
    if frame.len() < 2 {
        Seq::empty()
    } else {
        unstuffed(frame).subrange(1, frame.len() - 1)
    }
}

/// What decoding `frame` gives: its payload where it is well framed, nothing
/// otherwise.
pub open spec fn decode_frame(frame: Seq<u8>) -> Option<Seq<u8>> {
    if well_framed(frame) {
        Some(payload_of(frame))
    } else {
        None
    }
}

/// The bytes that a decoded payload holds, if there is one.
pub open spec fn payload_view(payload: Option<Vec<u8>>) -> Option<Seq<u8>> {
    match payload {
        Some(bytes) => Some(bytes@),
        None => None,
    }
}

/// A walk reads distances only at or after the place where it set out, and
/// only inside the frame.
pub proof fn lemma_reads_ahead(frame: Seq<u8>, from: int, at: int)
    requires
        reads_at(frame, from, at),
    ensures
        from <= at < frame.len(),
    decreases left_from(frame, from),
{
    if at != from {
        lemma_reads_ahead(frame, from + frame[from], at);
    }
}

/// Decodes one frame. Gives the payload where `cobs_bytes` is closed by a zero
/// byte and the walk from its head ends inside it, and nothing otherwise. The
/// payload is as long as the frame less its head and its closing byte; a frame
/// of the closing byte alone gives the empty payload.
pub fn dec_cobs(cobs_bytes: &[u8]) -> (payload: Option<Vec<u8>>)
    ensures
        payload_view(payload) == decode_frame(cobs_bytes@),
{
    let len = cobs_bytes.len();
    if len == 0 || cobs_bytes[len - 1] != 0 {
        return None;
    }
    let ghost frame = cobs_bytes@;
    let mut work = slice_to_vec(cobs_bytes);
    let mut i: usize = 0;
    loop
        invariant_except_break
            i < len,
            forall|at: int| i <= at < len ==> work@[at] == frame[at],
            forall|at: int| i <= at ==> reads_at(frame, 0, at) == reads_at(frame, i as int, at),
            walk_ends(frame, 0) == walk_ends(frame, i as int),
        invariant
            frame == cobs_bytes@,
            len == frame.len(),
            work@.len() == len,
            frame.last() == 0,
            forall|at: int| 0 <= at < i ==> work@[at] == unstuffed(frame)[at],
        ensures
            walk_ends(frame, 0),
            work@ == unstuffed(frame),
        decreases len - i,
    {
        let distance = work[i];
        work.set(i, 0);
        if distance == 0 {
            proof {
                assert forall|at: int| 0 <= at < len implies work@[at] == unstuffed(frame)[at] by {
                    if at > i {
                        assert(reads_at(frame, 0, at) == reads_at(frame, i as int, at));
                    }
                }
                assert(work@ =~= unstuffed(frame));
            }
            break ;
        }
        if distance as usize >= len - i {
            assert(!walk_ends(frame, i + distance));
            return None;
        }
        let ghost before = i as int;
        i += distance as usize;
        proof {
            assert forall|at: int| before <= at < i implies work@[at] == unstuffed(frame)[at] by {
                assert(reads_at(frame, 0, at) == reads_at(frame, before, at));
                if at != before && reads_at(frame, i as int, at) {
                    lemma_reads_ahead(frame, i as int, at);
                }
            }
            assert forall|at: int| i <= at implies reads_at(frame, 0, at) == reads_at(
                frame,
                i as int,
                at,
            ) by {
                assert(reads_at(frame, 0, at) == reads_at(frame, before, at));
            }
        }
    }
    if len < 2 {
        return Some(Vec::new());
    }
    Some(slice_to_vec(slice_subrange(work.as_slice(), 1, len - 1)))
}

/// From any place at or after the head, the walk either ends inside the frame
/// or steps past its end, and never both.
pub proof fn walk_ends_or_overruns(frame: Seq<u8>, from: int)
    requires
        0 <= from,
    ensures
        walk_overruns(frame, from) == !walk_ends(frame, from),
    decreases left_from(frame, from),
{
    if from < frame.len() && frame[from] != 0 {
        walk_ends_or_overruns(frame, from + frame[from]);
    }
}

/// No run of bytes that does not end in a zero byte is decoded, the empty run
/// included.
pub proof fn unclosed_frame_is_rejected(frame: Seq<u8>)
    requires
        frame.len() == 0 || frame.last() != 0,
    ensures
        decode_frame(frame) is None,
{
}

/// No frame is decoded in which a distance leads past the end before a
/// distance of zero was read.
pub proof fn overrunning_frame_is_rejected(frame: Seq<u8>)
    requires
        walk_overruns(frame, 0),
    ensures
        decode_frame(frame) is None,
{
    walk_ends_or_overruns(frame, 0);
}

/// Decoding depends on the bytes of the frame alone: whatever two calls of
/// `dec_cobs` on the same bytes return holds the same payload, or nothing both
/// times.
pub proof fn decoding_is_deterministic(
    frame: Seq<u8>,
    first: Option<Vec<u8>>,
    second: Option<Vec<u8>>,
)
    requires
        payload_view(first) == decode_frame(frame),
        payload_view(second) == decode_frame(frame),
    ensures
        payload_view(first) == payload_view(second),
{
}

/// The kind of switch that the first byte of a payload names: analog where
/// its lowest bit is set, digital where it is clear.
pub open spec fn kind_of(first: u8) -> SwitchKind {
    if first & 1 == 1 {
        SwitchKind::Analog
    } else {
        SwitchKind::Digital
    }
}

/// The fields of a record that lie in the bytes after the first. How they lie
/// there is for the wire layout of the device to say.
#[derive(Clone, Copy, Debug, PartialEq, Eq, Structural)]
pub struct SwitchFields {
    /// The pin of the Arduino that the switch is wired to.
    pub pin: u8,
    /// The value the switch was read at.
    pub state: u16,
    /// When the value was read.
    pub timestamp: i64,
}

/// The record of a payload whose first byte is `first` and whose other fields
/// were read as `fields`.
pub open spec fn record_of(first: u8, fields: SwitchFields) -> SwitchInfo {
    SwitchInfo {
        kind: kind_of(first),
        pin: fields.pin,
        state: fields.state,
        timestamp: fields.timestamp,
    }
}

/// What decoding `payload` gives with no layout at hand: nothing for the
/// empty payload, and else the record of its first byte with the other
/// fields at zero.
pub open spec fn decode_packet(payload: Seq<u8>) -> Option<SwitchInfo> {
    if payload.len() == 0 {
        None
    } else {
        Some(record_of(payload[0], SwitchFields { pin: 0, state: 0, timestamp: 0 }))
    }
}

/// Decodes the payload of a frame to a switch record. The kind comes from the
/// lowest bit of the first byte; pin, state and timestamp stay at zero, since
/// the layout of the other bytes is not fixed here (see `dec_raw_with`). The
/// empty payload gives nothing.
pub fn dec_raw(bytes: &[u8]) -> (info: Option<SwitchInfo>)
    ensures
        info == decode_packet(bytes@),
{
    if bytes.len() == 0 {
        return None;
    }
    let mut info = SwitchInfo::default();
    if bytes[0] & 1 == 1 {
        info.kind = SwitchKind::Analog;
    }
    Some(info)
}

/// Decodes the payload of a frame to a switch record, with the fields after
/// the kind read by `layout` from the bytes after the first. The empty
/// payload gives nothing, and `layout` is not called for it.
pub fn dec_raw_with<L: Fn(&[u8]) -> SwitchFields>(bytes: &[u8], layout: L) -> (info: Option<
    SwitchInfo,
>)
    requires
        forall|rest: &[u8]|
            bytes@.len() > 0 && rest@ == bytes@.subrange(1, bytes@.len() as int)
                ==> call_requires(layout, (rest,)),
    ensures
        info is Some <==> bytes@.len() > 0,
        info matches Some(record) ==> exists|rest: &[u8], fields: SwitchFields|
            {
                &&& rest@ == bytes@.subrange(1, bytes@.len() as int)
                &&& call_ensures(layout, (rest,), fields)
                &&& record == record_of(bytes@[0], fields)
            },
{
    let len = bytes.len();
    if len == 0 {
        return None;
    }
    let rest = slice_subrange(bytes, 1, len);
    let fields = layout(rest);
    let kind = if bytes[0] & 1 == 1 {
        SwitchKind::Analog
    } else {
        SwitchKind::Digital
    };
    Some(SwitchInfo { kind, pin: fields.pin, state: fields.state, timestamp: fields.timestamp })
}

} // verus!
