//! The fixed four-byte frame header: channel, command, and the payload length
//! as a big-endian 16-bit integer.
use vstd::prelude::*;

verus! {

/// The number of bytes of a header on the wire.
pub const OPC_HEADER_LENGTH: usize = 4;

/// The command byte of a pixel-colour payload.
pub const CMD_SET_PIXEL_COLOURS: u8 = 0;

/// The command byte of a system-exclusive payload.
pub const CMD_SYSTEM_EXCLUSIVE: u8 = 255;

#[derive(Copy, Clone, Debug, PartialEq, Eq, Structural)]
pub struct OpcHeader {
    pub channel: u8,
    pub command: u8,
    pub length: u16,
}

/// The four bytes that encode a header.
pub open spec fn header_bytes(h: OpcHeader) -> Seq<u8> {
    seq![h.channel, h.command, (h.length / 256) as u8, (h.length % 256) as u8]
}

/// The header that the first four bytes of `s` encode.
pub open spec fn parse_header(s: Seq<u8>) -> OpcHeader
    recommends
        s.len() >= 4,
{
    OpcHeader { channel: s[0], command: s[1], length: (s[2] as int * 256 + s[3] as int) as u16 }
}

/// Writing a header and reading it back gives the same header.
pub proof fn lemma_header_round_trip(h: OpcHeader)
    ensures
        parse_header(header_bytes(h)) == h,
{
}

/// Reading a header looks at the first four bytes alone.
pub proof fn lemma_parse_header_prefix(s: Seq<u8>, t: Seq<u8>)
    requires
        s.len() >= 4,
    ensures
        parse_header(s + t) == parse_header(s),
{
}

impl OpcHeader {
    /// Reads a header from the first four bytes of `buf`.
    pub fn new(buf: &[u8]) -> (r: Self)
        requires
            buf@.len() >= 4,
        ensures
            r == parse_header(buf@),
    {
        OpcHeader {
            channel: buf[0],
            command: buf[1],
            length: (buf[2] as u16) * 256 + (buf[3] as u16),
        }
    }

    /// The four bytes of the header on the wire.
    pub fn to_bytes(&self) -> (r: [u8; 4])
        ensures
            r@ == header_bytes(*self),
    {
        let len1: u8 = (self.length / 256) as u8;
        let len2: u8 = (self.length % 256) as u8;
        let r = [self.channel, self.command, len1, len2];
        assert(r@ =~= header_bytes(*self));
        r
    }
}

} // verus!
