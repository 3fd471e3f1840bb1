//! A streaming codec for the Open Pixel Control wire protocol: frames of a
//! four-byte header (channel, command, big-endian payload length) and a
//! payload of pixel colours, system-exclusive data or opaque bytes.
use vstd::prelude::*;

pub mod buffer;
pub mod codec;
pub mod header;
pub mod message;
pub mod pixel;
pub mod sysexclusive;

pub use codec::{decode_frame, encode_frame, OPCCodec};
pub use header::OpcHeader;
pub use message::{OpcMessage, OpcMessageData};
pub use pixel::{OpcPixel, PixelIterator, PixelIteratorMut, Pixels};
pub use sysexclusive::SystemExclusiveData;

verus! {

} // verus!
