//! The byte buffer that a transport fills and the codec drains: `BytesMut`
//! of the `bytes` crate, with what the codec relies on of it.
use vstd::prelude::*;
use bytes::BytesMut;

verus! {

#[verifier::external_type_specification]
#[verifier::external_body]
pub struct ExBytesMut(BytesMut);

/// The bytes that a buffer holds, in order.
pub uninterp spec fn buffer_contents(b: BytesMut) -> Seq<u8>;

/// Relies on `BytesMut`'s `AsRef<[u8]>`: the slice is the bytes the buffer
/// holds.
#[verifier::external_body]
pub(crate) fn buf_as_slice(b: &BytesMut) -> (r: &[u8])
    ensures
        r@ == buffer_contents(*b),
{
    b.as_ref()
}

/// Relies on `BytesMut::split_to`: the first `at` bytes are handed out, the
/// rest stay; it panics where `at` is past the end.
#[verifier::external_body]
pub(crate) fn buf_split_to(b: &mut BytesMut, at: usize) -> (r: BytesMut)
    requires
        at <= buffer_contents(*old(b)).len(),
    ensures
        buffer_contents(r) == buffer_contents(*old(b)).take(at as int),
        buffer_contents(*final(b)) == buffer_contents(*old(b)).skip(at as int),
{
    b.split_to(at)
}

/// Relies on `BytesMut::extend_from_slice`: the bytes of `s` are appended,
/// growing the buffer as needed; the new length must fit in `usize`.
#[verifier::external_body]
pub(crate) fn buf_extend(b: &mut BytesMut, s: &[u8])
    requires
        buffer_contents(*old(b)).len() + s@.len() <= usize::MAX,
    ensures
        buffer_contents(*final(b)) == buffer_contents(*old(b)) + s@,
{
    b.extend_from_slice(s)
}

} // verus!
