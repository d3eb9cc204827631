//! Cutting the bytes that arrive from the device into frames.
//!
//! The device sends frame after frame, each closed by a zero byte. Bytes come
//! in as the serial line delivers them, in pieces that need not end where a
//! frame ends. A `FrameReader` keeps the frame that is still open and hands
//! out the payload of each frame as its closing byte arrives. A frame that
//! cannot be decoded is dropped, and reading goes on behind its closing byte.

use crate::device::dec::{dec_cobs, dec_raw, decode_frame, decode_packet};
use crate::device::switch::SwitchInfo;
use vstd::prelude::*;

verus! {

/// The bytes of `stream` behind its last zero byte: the frame that is still
/// open.
pub open spec fn open_frame(stream: Seq<u8>) -> Seq<u8>
    decreases stream.len(),
{
    if stream.len() == 0 || stream.last() == 0 {
        Seq::empty()
    } else {
        open_frame(stream.drop_last()).push(stream.last())
    }
}

/// The payloads of the frames that are closed within `stream` and can be
/// decoded, in the order of their closing bytes.
pub open spec fn payloads(stream: Seq<u8>) -> Seq<Seq<u8>>
    decreases stream.len(),
{
    if stream.len() == 0 {
        Seq::empty()
    } else if stream.last() != 0 {
        payloads(stream.drop_last())
    } else {
        match decode_frame(open_frame(stream.drop_last()).push(0)) {
            Some(payload) => payloads(stream.drop_last()).push(payload),
            None => payloads(stream.drop_last()),
        }
    }
}

/// The bytes that each of `frames` holds.
pub open spec fn payload_views(frames: Seq<Vec<u8>>) -> Seq<Seq<u8>> {
    frames.map_values(|frame: Vec<u8>| frame@)
}

/// A stream without a zero byte closes no frame: all of it is the open frame.
pub proof fn lemma_open_stream(stream: Seq<u8>)
    requires
        forall|i: int| 0 <= i < stream.len() ==> stream[i] != 0,
    ensures
        open_frame(stream) == stream,
        payloads(stream) == Seq::<Seq<u8>>::empty(),
    decreases stream.len(),
{
    if stream.len() > 0 {
        lemma_open_stream(stream.drop_last());
        assert(open_frame(stream) =~= stream);
    }
}

/// What lies before a closing byte does not bear on what is read behind it:
/// behind the end of `head`, which is empty or ends in a zero byte, `tail` is
/// cut and decoded as it would be alone. So a frame that cannot be decoded
/// costs that frame only.
pub proof fn reading_starts_anew_behind_closing_byte(head: Seq<u8>, tail: Seq<u8>)
    requires
        head.len() == 0 || head.last() == 0,
    ensures
        open_frame(head + tail) == open_frame(tail),
        payloads(head + tail) == payloads(head) + payloads(tail),
    decreases tail.len(),
{
    if tail.len() == 0 {
        assert(head + tail =~= head);
        assert(payloads(head) + payloads(tail) =~= payloads(head));
    } else {
        let whole = head + tail;
        assert(whole.drop_last() =~= head + tail.drop_last());
        reading_starts_anew_behind_closing_byte(head, tail.drop_last());
        assert(payloads(whole) =~= payloads(head) + payloads(tail));
    }
}

/// The open frame holds no zero byte.
pub proof fn lemma_open_frame_holds_no_zero(stream: Seq<u8>)
    ensures
        forall|i: int| 0 <= i < open_frame(stream).len() ==> open_frame(stream)[i] != 0,
    decreases stream.len(),
{
    if stream.len() > 0 && stream.last() != 0 {
        let before = open_frame(stream.drop_last());
        lemma_open_frame_holds_no_zero(stream.drop_last());
        assert forall|i: int| 0 <= i < open_frame(stream).len() implies open_frame(stream)[i]
            != 0 by {
            if i < before.len() {
                assert(open_frame(stream)[i] == before[i]);
            }
        }
    }
}

/// It does not matter in what pieces the bytes are delivered: when `second`
/// comes after `first`, the frames handed out for `first` and then for
/// `second`, with the frame that `first` left open in front of it, are those
/// of the two in one piece, and the same frame is left open.
pub proof fn delivery_in_pieces_changes_nothing(first: Seq<u8>, second: Seq<u8>)
    ensures
        open_frame(first + second) == open_frame(open_frame(first) + second),
        payloads(first + second) == payloads(first) + payloads(open_frame(first) + second),
    decreases second.len(),
{
    let kept = open_frame(first);
    if second.len() == 0 {
        lemma_open_frame_holds_no_zero(first);
        lemma_open_stream(kept);
        assert(first + second =~= first);
        assert(kept + second =~= kept);
        assert(payloads(first) + payloads(kept) =~= payloads(first));
    } else {
        let whole = first + second;
        let rest = kept + second;
        assert(whole.drop_last() =~= first + second.drop_last());
        assert(rest.drop_last() =~= kept + second.drop_last());
        delivery_in_pieces_changes_nothing(first, second.drop_last());
        assert(payloads(whole) =~= payloads(first) + payloads(rest));
    }
}

/// Keeps the frame that is still open between one delivery of bytes and the
/// next.
pub struct FrameReader {
    pending: Vec<u8>,
}

impl View for FrameReader {
    type V = Seq<u8>;

    /// The bytes of the frame that is still open.
    closed spec fn view(&self) -> Seq<u8> {
        self.pending@
    }
}

impl FrameReader {
    /// The open frame holds no zero byte: a zero byte closes it.
    #[verifier::type_invariant]
    spec fn holds_no_zero(self) -> bool {
        forall|i: int| 0 <= i < self.pending@.len() ==> self.pending@[i] != 0
    }

    /// A reader at the start of a frame.
    pub fn new() -> (reader: Self)
        ensures
            reader@ == Seq::<u8>::empty(),
    {
        FrameReader { pending: Vec::new() }
    }

    /// Drops the bytes of the open frame, so that the next byte starts a
    /// frame.
    pub fn clear(&mut self)
        ensures
            final(self)@ == Seq::<u8>::empty(),
    {
        self.pending = Vec::new();
    }

    /// Takes the bytes that arrived. Returns the payloads of the frames that
    /// they close and that can be decoded, in order, and keeps what lies
    /// behind the last closing byte as the open frame.
    pub fn feed(&mut self, bytes: &[u8]) -> (closed: Vec<Vec<u8>>)
        ensures
            final(self)@ == open_frame(old(self)@ + bytes@),
            payload_views(closed@) == payloads(old(self)@ + bytes@),
    {
        let mut closed: Vec<Vec<u8>> = Vec::new();
        let ghost before = self@;
        proof {
            use_type_invariant(&*self);
            lemma_open_stream(before);
            assert(before + bytes@.take(0) =~= before);
            assert(payload_views(closed@) =~= payloads(before));
        }
        let mut frame: Vec<u8> = Vec::new();
        core::mem::swap(&mut frame, &mut self.pending);
        let mut i: usize = 0;
        while i < bytes.len()
            invariant
                i <= bytes.len(),
                forall|k: int| 0 <= k < frame@.len() ==> frame@[k] != 0,
                frame@ == open_frame(before + bytes@.take(i as int)),
                payload_views(closed@) == payloads(before + bytes@.take(i as int)),
            decreases bytes.len() - i,
        {
            let byte = bytes[i];
            let ghost seen = before + bytes@.take(i as int);
            let ghost next = before + bytes@.take(i + 1);
            proof {
                assert(next.drop_last() =~= seen);
                assert(next.last() == byte);
            }
            frame.push(byte);
            if byte == 0 {
                let ghost done = closed@;
                match dec_cobs(frame.as_slice()) {
                    Some(payload) => {
                        closed.push(payload);
                        assert(payload_views(closed@) =~= payload_views(done).push(payload@));
                    },
                    None => {},
                }
                frame.clear();
            }
            i += 1;
        }
        proof {
            assert(bytes@.take(i as int) =~= bytes@);
        }
        self.pending = frame;
        closed
    }
}

/// The records that `frames` decode to, in order. A payload that decodes to
/// nothing adds nothing.
pub open spec fn records_of(frames: Seq<Seq<u8>>) -> Seq<SwitchInfo>
    decreases frames.len(),
{
    if frames.len() == 0 {
        Seq::empty()
    } else {
        match decode_packet(frames.last()) {
            Some(record) => records_of(frames.drop_last()).push(record),
            None => records_of(frames.drop_last()),
        }
    }
}

/// Decodes each of `frames` to a record, in order, and leaves out those that
/// decode to nothing.
pub fn dec_records(frames: &Vec<Vec<u8>>) -> (records: Vec<SwitchInfo>)
    ensures
        records@ == records_of(payload_views(frames@)),
{
    let mut records: Vec<SwitchInfo> = Vec::new();
    let ghost all = payload_views(frames@);
    proof {
        assert(all.take(0) =~= Seq::<Seq<u8>>::empty());
    }
    let mut i: usize = 0;
    while i < frames.len()
        invariant
            i <= frames.len(),
            all == payload_views(frames@),
            records@ == records_of(all.take(i as int)),
        decreases frames.len() - i,
    {
        proof {
            assert(all.take(i + 1).drop_last() =~= all.take(i as int));
        }
        match dec_raw(frames[i].as_slice()) {
            Some(record) => {
                records.push(record);
            },
            None => {},
        }
        i += 1;
    }
    proof {
        assert(all.take(i as int) =~= all);
    }
    records
}

} // verus!
