//! The codec between a byte stream and a sequence of messages.
use vstd::prelude::*;
use vstd::slice::{slice_subrange, slice_to_vec};
use bytes::BytesMut;
use crate::buffer::{buf_as_slice, buf_extend, buf_split_to, buffer_contents};
use crate::header::{
    header_bytes, lemma_parse_header_prefix, parse_header, OpcHeader, CMD_SET_PIXEL_COLOURS,
    OPC_HEADER_LENGTH,
};
use crate::pixel::{whole_pixels, zero_pixels};
use crate::message::{
    capped_length, header_of, wire_payload, OpcMessage, OpcMessageData, MAX_PAYLOAD_LENGTH,
};

verus! {

/// The number of bytes of the frame that starts `s`: the header and the
/// payload length that it gives.
pub open spec fn frame_len(s: Seq<u8>) -> nat {
    (4 + parse_header(s).length) as nat
}

/// The message (channel, command, payload) of the frame that starts `s`, or
/// `None` while the frame is not complete.
pub open spec fn decoded(s: Seq<u8>) -> Option<(u8, u8, Seq<u8>)> {
    if s.len() < 4 || s.len() < frame_len(s) {
        None
    } else {
        let h = parse_header(s);
        Some((h.channel, h.command, wire_payload(h.command, s.subrange(4, frame_len(s) as int))))
    }
}

/// The frame of a message (channel, command, payload): its header, then as
/// much of the payload as a header can describe.
pub open spec fn encoded(m: (u8, u8, Seq<u8>)) -> Seq<u8> {
    header_bytes(header_of(m)) + m.2.take(capped_length(m.2.len()) as int)
}

/// Decoding the frame of a message gives the message back, where the payload
/// fits in a header and a pixel-colour payload holds whole pixels.
pub proof fn lemma_encode_decode(m: (u8, u8, Seq<u8>))
    requires
        m.2.len() <= 65535,
        m.1 == CMD_SET_PIXEL_COLOURS ==> m.2.len() % 3 == 0,
    ensures
        decoded(encoded(m)) == Some(m),
        frame_len(encoded(m)) == encoded(m).len(),
{
    let f = encoded(m);
    assert(m.2.take(m.2.len() as int) =~= m.2);
    assert(parse_header(f) == header_of(m));
    assert(f.subrange(4, f.len() as int) =~= m.2);
    if m.1 == CMD_SET_PIXEL_COLOURS {
        assert(whole_pixels(m.2) =~= m.2);
    }
}

/// `n` zero pixels, encoded and decoded again, come back as `n` zero pixels,
/// where their bytes fit in a header.
pub proof fn lemma_zero_pixels_round_trip(channel: u8, n: nat)
    requires
        3 * n <= 65535,
    ensures
        decoded(encoded((channel, CMD_SET_PIXEL_COLOURS, zero_pixels(n)))) == Some(
            (channel, CMD_SET_PIXEL_COLOURS, zero_pixels(n)),
        ),
{
    lemma_encode_decode((channel, CMD_SET_PIXEL_COLOURS, zero_pixels(n)));
}

/// A frame fed in two parts: after the first part alone nothing is decoded,
/// and once the rest is appended the whole frame is, with no byte lost or
/// repeated.
pub proof fn lemma_incremental_decode(f: Seq<u8>, k: int)
    requires
        decoded(f) is Some,
        frame_len(f) == f.len(),
        0 <= k < f.len(),
    ensures
        decoded(f.take(k)) is None,
        decoded(f.take(k) + f.skip(k)) == decoded(f),
        frame_len(f.take(k) + f.skip(k)) == f.len(),
{
    assert(f.take(k) + f.skip(k) =~= f);
    if k >= 4 {
        assert(parse_header(f.take(k)) == parse_header(f));
    }
}

/// Bytes after a complete frame change neither the message decoded from it
/// nor the frame's length, and are all that decoding leaves behind.
pub proof fn lemma_one_frame_per_call(f: Seq<u8>, t: Seq<u8>)
    requires
        decoded(f) is Some,
        frame_len(f) == f.len(),
    ensures
        decoded(f + t) == decoded(f),
        frame_len(f + t) == f.len(),
        (f + t).skip(frame_len(f + t) as int) == t,
{
    lemma_parse_header_prefix(f, t);
    assert((f + t).subrange(4, f.len() as int) =~= f.subrange(4, f.len() as int));
    assert((f + t).skip(f.len() as int) =~= t);
}

/// `d`, cut to the largest payload length that a header can carry.
pub fn verify_vec_size(d: Vec<u8>) -> (r: Vec<u8>)
    ensures
        r@ == d@.take(capped_length(d@.len()) as int),
{
    let mut d = d;
    if d.len() > MAX_PAYLOAD_LENGTH {
        d.truncate(MAX_PAYLOAD_LENGTH);
    } else {
        assert(d@.take(d@.len() as int) =~= d@);
    }
    d
}

/// Decodes the frame that starts `buf`: the message and the number of bytes
/// it took, or `None` while the frame is not complete.
pub fn decode_frame(buf: &[u8]) -> (r: Option<(OpcMessage, usize)>)
    ensures
        match r {
            None => decoded(buf@) is None,
            Some((m, n)) => decoded(buf@) == Some(m@) && m.message.canonical() && n == frame_len(
                buf@,
            ),
        },
{
    if buf.len() < OPC_HEADER_LENGTH {
        return None;
    }
    let header = OpcHeader::new(buf);
    let packet_size = OPC_HEADER_LENGTH + header.length as usize;
    if buf.len() < packet_size {
        return None;
    }
    let data = slice_to_vec(slice_subrange(buf, OPC_HEADER_LENGTH, packet_size));
    let data = OpcMessageData::from_wire(header.command, data);
    Some((OpcMessage::new(header.channel, data), packet_size))
}

/// Encodes one message as a frame.
pub fn encode_frame(item: OpcMessage) -> (r: Vec<u8>)
    ensures
        r@ == encoded(item@),
{
    let ghost m = item@;
    let mut header = item.header();
    let data = verify_vec_size(item.message.into_bytes());
    header.length = data.len() as u16;
    let headerbuf = header.to_bytes();
    let mut r: Vec<u8> = Vec::new();
    let mut i: usize = 0;
    while i < OPC_HEADER_LENGTH
        invariant
            i <= 4,
            headerbuf@ == header_bytes(header),
            r@ == headerbuf@.take(i as int),
        decreases 4 - i,
    {
        r.push(headerbuf[i]);
        assert(r@ =~= headerbuf@.take(i + 1));
        i = i + 1;
    }
    let mut data = data;
    r.append(&mut data);
    assert(header == header_of(m));
    assert(r@ =~= encoded(m));
    r
}

/// The codec. It keeps no state between calls: the buffer is the caller's.
/// A payload longer than a header can describe is cut to the largest length
/// that it can.
pub struct OPCCodec;

impl OPCCodec {
    /// Takes one complete frame off the front of `buf` and returns its
    /// message. While the frame is not complete it returns `None` and leaves
    /// `buf` as it was.
    pub fn decode(&mut self, buf: &mut BytesMut) -> (r: Option<OpcMessage>)
        ensures
            decoded(buffer_contents(*old(buf))) is None ==> r is None && buffer_contents(
                *final(buf),
            ) == buffer_contents(*old(buf)),
            decoded(buffer_contents(*old(buf))) is Some ==> r is Some && r->0@ == decoded(
                buffer_contents(*old(buf)),
            )->0 && r->0.message.canonical() && buffer_contents(*final(buf)) == buffer_contents(
                *old(buf),
            ).skip(frame_len(buffer_contents(*old(buf))) as int),
    {
        let s = buf_as_slice(buf);
        if s.len() < OPC_HEADER_LENGTH {
            return None;
        }
        let header = OpcHeader::new(s);
        let packet_size = OPC_HEADER_LENGTH + header.length as usize;
        if s.len() < packet_size {
            return None;
        }
        let ghost whole = buffer_contents(*buf);
        buf_split_to(buf, OPC_HEADER_LENGTH);
        let payload = buf_split_to(buf, header.length as usize);
        let data = slice_to_vec(buf_as_slice(&payload));
        assert(data@ =~= whole.subrange(4, packet_size as int));
        assert(buffer_contents(*buf) =~= whole.skip(packet_size as int));
        let data = OpcMessageData::from_wire(header.command, data);
        Some(OpcMessage::new(header.channel, data))
    }

    /// Decoding at the end of the stream: the same as `decode`; a partial
    /// frame left at the end is never completed.
    pub fn decode_eof(&mut self, buf: &mut BytesMut) -> (r: Option<OpcMessage>)
        ensures
            decoded(buffer_contents(*old(buf))) is None ==> r is None && buffer_contents(
                *final(buf),
            ) == buffer_contents(*old(buf)),
            decoded(buffer_contents(*old(buf))) is Some ==> r is Some && r->0@ == decoded(
                buffer_contents(*old(buf)),
            )->0 && r->0.message.canonical() && buffer_contents(*final(buf)) == buffer_contents(
                *old(buf),
            ).skip(frame_len(buffer_contents(*old(buf))) as int),
    {
        self.decode(buf)
    }

    /// Appends the frame of `item` to `dst`.
    pub fn encode(&mut self, item: OpcMessage, dst: &mut BytesMut)
        requires
            buffer_contents(*old(dst)).len() + 4 + 65535 <= usize::MAX,
        ensures
            buffer_contents(*final(dst)) == buffer_contents(*old(dst)) + encoded(item@),
    {
        let frame = encode_frame(item);
        buf_extend(dst, frame.as_slice());
    }
}

} // verus!
