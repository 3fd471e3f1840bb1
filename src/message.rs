//! A message: a channel and one of three kinds of payload.
use vstd::prelude::*;
use crate::header::{OpcHeader, CMD_SET_PIXEL_COLOURS, CMD_SYSTEM_EXCLUSIVE};
use crate::pixel::{whole_pixels, Pixels};
use crate::sysexclusive::SystemExclusiveData;

verus! {

/// The largest payload length that a header can carry.
pub const MAX_PAYLOAD_LENGTH: usize = 65535;

/// The payload of a message; the variant fixes the command byte.
#[derive(Clone, Debug)]
pub enum OpcMessageData {
    SetPixelColours(Pixels),
    SystemExclusive(SystemExclusiveData),
    Other(u8, Vec<u8>),
}

impl View for OpcMessageData {
    /// The command byte and the payload bytes.
    type V = (u8, Seq<u8>);

    open spec fn view(&self) -> (u8, Seq<u8>) {
        match self {
            OpcMessageData::SetPixelColours(p) => (CMD_SET_PIXEL_COLOURS, p@),
            OpcMessageData::SystemExclusive(s) => (CMD_SYSTEM_EXCLUSIVE, s@),
            OpcMessageData::Other(cmd, d) => (*cmd, d@),
        }
    }
}

/// The length that a header carries for a payload of `n` bytes: `n`, or the
/// largest length a header can carry where `n` is larger.
pub open spec fn capped_length(n: nat) -> u16 {
    if n > 65535 {
        65535
    } else {
        n as u16
    }
}

/// The payload bytes that decoding makes of a frame's payload under
/// `command`: pixel colours keep their whole pixels, others keep every byte.
pub open spec fn wire_payload(command: u8, data: Seq<u8>) -> Seq<u8> {
    if command == CMD_SET_PIXEL_COLOURS {
        whole_pixels(data)
    } else {
        data
    }
}

impl OpcMessageData {
    /// The variant is the one that the command byte selects on the wire.
    pub open spec fn canonical(&self) -> bool {
        match self {
            OpcMessageData::SetPixelColours(_) => true,
            OpcMessageData::SystemExclusive(_) => true,
            OpcMessageData::Other(cmd, _) => *cmd != CMD_SET_PIXEL_COLOURS && *cmd
                != CMD_SYSTEM_EXCLUSIVE,
        }
    }

    /// The payload that a frame with `command` carries, as the variant that
    /// the command selects.
    pub fn from_wire(command: u8, data: Vec<u8>) -> (r: Self)
        ensures
            r@ == (command, wire_payload(command, data@)),
            r.canonical(),
    {
        if command == CMD_SET_PIXEL_COLOURS {
            OpcMessageData::SetPixelColours(Pixels::from_bytes(data))
        } else if command == CMD_SYSTEM_EXCLUSIVE {
            OpcMessageData::SystemExclusive(SystemExclusiveData::from_bytes(data))
        } else {
            OpcMessageData::Other(command, data)
        }
    }

    /// The number of payload bytes.
    pub fn len(&self) -> (r: usize)
        ensures
            r == self@.1.len(),
    {
        match self {
            OpcMessageData::SetPixelColours(pixels) => pixels.len_bytes(),
            OpcMessageData::SystemExclusive(sysdata) => sysdata.len_bytes(),
            OpcMessageData::Other(_, data) => data.len(),
        }
    }

    /// The command byte.
    pub fn command(&self) -> (r: u8)
        ensures
            r == self@.0,
    {
        match self {
            OpcMessageData::SetPixelColours(_) => CMD_SET_PIXEL_COLOURS,
            OpcMessageData::SystemExclusive(_) => CMD_SYSTEM_EXCLUSIVE,
            OpcMessageData::Other(cmd, _) => *cmd,
        }
    }

    /// Hands back the payload bytes.
    pub fn into_bytes(self) -> (r: Vec<u8>)
        ensures
            r@ == self@.1,
    {
        match self {
            OpcMessageData::SetPixelColours(pixels) => pixels.into_bytes(),
            OpcMessageData::SystemExclusive(sysdata) => sysdata.into_bytes(),
            OpcMessageData::Other(_, data) => data,
        }
    }
}

#[derive(Clone, Debug)]
pub struct OpcMessage {
    pub channel: u8,
    pub message: OpcMessageData,
}

impl View for OpcMessage {
    /// The channel, the command byte and the payload bytes.
    type V = (u8, u8, Seq<u8>);

    open spec fn view(&self) -> (u8, u8, Seq<u8>) {
        (self.channel, self.message@.0, self.message@.1)
    }
}

/// The header of a message with the given view.
pub open spec fn header_of(m: (u8, u8, Seq<u8>)) -> OpcHeader {
    OpcHeader { channel: m.0, command: m.1, length: capped_length(m.2.len()) }
}

impl OpcMessage {
    pub fn new(channel: u8, msg: OpcMessageData) -> (r: Self)
        ensures
            r.channel == channel,
            r.message == msg,
    {
        OpcMessage { channel: channel, message: msg }
    }

    /// The header that goes before this message on the wire. A payload longer
    /// than a header can describe is announced at the largest length, which
    /// is what encoding writes of it.
    pub fn header(&self) -> (r: OpcHeader)
        ensures
            r == header_of(self@),
    {
        let command = self.message.command();
        let n = self.message.len();
        let length: u16 = if n > MAX_PAYLOAD_LENGTH {
            65535
        } else {
            n as u16
        };
        OpcHeader { channel: self.channel, command: command, length: length }
    }
}

} // verus!
