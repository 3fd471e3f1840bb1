//! The pixel-colour payload: a byte buffer of RGB triples, with read-only and
//! mutable views of each pixel.
use vstd::prelude::*;

verus! {

/// The number of bytes of one pixel (red, green, blue).
pub const NUM_RGB_BYTES: usize = 3;

/// The longest prefix of `s` whose length is a multiple of three.
pub open spec fn whole_pixels(s: Seq<u8>) -> Seq<u8> {
    s.subrange(0, s.len() - s.len() % 3)
}

/// `n` pixels with every channel zero.
pub open spec fn zero_pixels(n: nat) -> Seq<u8> {
    Seq::new(3 * n, |i: int| 0u8)
}

/// Wrapping `3n + 1` or `3n + 2` bytes keeps the first `3n`.
pub proof fn lemma_truncation(s: Seq<u8>, n: nat)
    requires
        s.len() == 3 * n + 1 || s.len() == 3 * n + 2,
    ensures
        whole_pixels(s).len() == 3 * n,
        whole_pixels(s) == s.take(3 * n as int),
{
}

/// A view of one pixel: three bytes, red at offset 0, green at 1, blue at 2.
/// `T` is `&[u8]` for a read-only view and `&mut [u8]` for a mutable one.
#[derive(Debug)]
pub struct OpcPixel<T> {
    pub x: T,
}

impl<'a> OpcPixel<&'a [u8]> {
    /// The bytes of the pixel, red first.
    pub open spec fn channels(&self) -> Seq<u8> {
        self.x@
    }

    pub fn new(x: &'a [u8]) -> (r: Self)
        requires
            x@.len() == 3,
        ensures
            r.channels() == x@,
    {
        OpcPixel { x }
    }

    pub fn r(&self) -> (v: u8)
        requires
            self.channels().len() == 3,
        ensures
            v == self.channels()[0],
    {
        self.x[0]
    }

    pub fn g(&self) -> (v: u8)
        requires
            self.channels().len() == 3,
        ensures
            v == self.channels()[1],
    {
        self.x[1]
    }

    pub fn b(&self) -> (v: u8)
        requires
            self.channels().len() == 3,
        ensures
            v == self.channels()[2],
    {
        self.x[2]
    }
}

impl<'a> OpcPixel<&'a mut [u8]> {
    /// The bytes of the pixel, red first.
    pub open spec fn channels(&self) -> Seq<u8> {
        (*self.x)@
    }

    pub fn new(x: &'a mut [u8]) -> (r: Self)
        requires
            old(x)@.len() == 3,
        ensures
            r.channels() == old(x)@,
            final(x)@ == final(r.x)@,
    {
        OpcPixel { x }
    }

    pub fn r(&self) -> (v: u8)
        requires
            self.channels().len() == 3,
        ensures
            v == self.channels()[0],
    {
        self.x[0]
    }

    pub fn g(&self) -> (v: u8)
        requires
            self.channels().len() == 3,
        ensures
            v == self.channels()[1],
    {
        self.x[1]
    }

    pub fn b(&self) -> (v: u8)
        requires
            self.channels().len() == 3,
        ensures
            v == self.channels()[2],
    {
        self.x[2]
    }

    pub fn set_r(&mut self, v: u8)
        requires
            old(self).channels().len() == 3,
        ensures
            final(self).channels() == old(self).channels().update(0, v),
            (*final(final(self).x))@ == (*final(old(self).x))@,
    {
        self.x[0] = v;
    }

    pub fn set_g(&mut self, v: u8)
        requires
            old(self).channels().len() == 3,
        ensures
            final(self).channels() == old(self).channels().update(1, v),
            (*final(final(self).x))@ == (*final(old(self).x))@,
    {
        self.x[1] = v;
    }

    pub fn set_b(&mut self, v: u8)
        requires
            old(self).channels().len() == 3,
        ensures
            final(self).channels() == old(self).channels().update(2, v),
            (*final(final(self).x))@ == (*final(old(self).x))@,
    {
        self.x[2] = v;
    }
}

/// An owned buffer of pixels, three bytes each; its length is always a
/// multiple of three.
#[derive(Clone, Debug)]
pub struct Pixels {
    pixels: Vec<u8>,
}

impl View for Pixels {
    type V = Seq<u8>;

    closed spec fn view(&self) -> Seq<u8> {
        self.pixels@
    }
}

impl Pixels {
    /// Every pixel is whole: the length is a multiple of three.
    pub open spec fn wf(&self) -> bool {
        self@.len() % 3 == 0
    }

    /// `n` pixels, every channel zero.
    pub fn new(n: usize) -> (r: Pixels)
        requires
            n * 3 <= usize::MAX,
        ensures
            r@ == zero_pixels(n as nat),
            r.wf(),
    {
        let r = Pixels { pixels: vec![0u8; n * NUM_RGB_BYTES] };
        assert(r.pixels@ =~= zero_pixels(n as nat));
        r
    }

    /// Wraps `t`, dropping the one or two trailing bytes that do not make a
    /// whole pixel.
    pub fn from_bytes(t: Vec<u8>) -> (r: Pixels)
        ensures
            r@ == whole_pixels(t@),
            r.wf(),
    {
        let ghost whole = whole_pixels(t@);
        let mut t = t;
        let blen: usize = t.len() - (t.len() % NUM_RGB_BYTES);
        t.truncate(blen);
        assert(t@ =~= whole);
        Pixels { pixels: t }
    }

    /// Hands back the owned buffer.
    pub fn into_bytes(self) -> (r: Vec<u8>)
        ensures
            r@ == self@,
    {
        self.pixels
    }

    /// The length of the buffer: three times the number of pixels.
    pub fn len_bytes(&self) -> (r: usize)
        ensures
            r == self@.len(),
    {
        self.pixels.len()
    }

    /// A read-only walk over the pixels in order.
    pub fn iter(&self) -> (r: PixelIterator<'_>)
        ensures
            r@ == self@,
    {
        PixelIterator::new(self)
    }

    /// A walk over the pixels in order that can change them in place.
    pub fn iter_mut(&mut self) -> (r: PixelIteratorMut<'_>)
        ensures
            r.p is Some,
            (*r.p->0)@ == old(self)@,
            final(self)@ == (*final(r.p->0))@,
    {
        PixelIteratorMut::new(self)
    }
}

/// The read-only walk over the pixels of a buffer: what is left to visit.
pub struct PixelIterator<'a> {
    p: &'a [u8],
}

impl<'a> View for PixelIterator<'a> {
    type V = Seq<u8>;

    closed spec fn view(&self) -> Seq<u8> {
        self.p@
    }
}

impl<'a> PixelIterator<'a> {
    fn new(p: &'a Pixels) -> (r: Self)
        ensures
            r@ == p@,
    {
        PixelIterator { p: p.pixels.as_slice() }
    }

    /// The next pixel, if a whole one is left.
    pub fn next(&mut self) -> (r: Option<OpcPixel<&'a [u8]>>)
        ensures
            old(self)@.len() >= 3 ==> r is Some && r->0.channels() == old(self)@.take(3)
                && final(self)@ == old(self)@.skip(3),
            old(self)@.len() < 3 ==> r is None && final(self)@ == old(self)@,
    {
        if self.p.len() < NUM_RGB_BYTES {
            None
        } else {
            let (h, t) = self.p.split_at(NUM_RGB_BYTES);
            self.p = t;
            Some(OpcPixel::<&'a [u8]>::new(h))
        }
    }

    /// Skips `n` pixels and returns the one after them, if a whole one is left.
    pub fn nth(&mut self, n: usize) -> (r: Option<OpcPixel<&'a [u8]>>)
        ensures
            old(self)@.len() >= 3 * n + 3 ==> r is Some
                && r->0.channels() == old(self)@.subrange(3 * n, 3 * n + 3)
                && final(self)@ == old(self)@.skip(3 * n + 3),
            old(self)@.len() < 3 * n + 3 ==> r is None,
    {
        if self.p.len() / NUM_RGB_BYTES <= n {
            let (_h, t) = self.p.split_at(self.p.len());
            self.p = t;
            None
        } else {
            let (_h, t) = self.p.split_at(n * NUM_RGB_BYTES);
            self.p = t;
            let r = self.next();
            assert(old(self)@.subrange(3 * n, 3 * n + 3) =~= t@.take(3));
            assert(old(self)@.skip(3 * n + 3) =~= t@.skip(3));
            r
        }
    }

    /// The number of whole pixels left.
    pub fn len(&self) -> (r: usize)
        ensures
            r == self@.len() / 3,
    {
        self.p.len() / NUM_RGB_BYTES
    }
}

/// The walk over the pixels of a buffer that can change them: what is left
/// to visit.
pub struct PixelIteratorMut<'a> {
    pub p: Option<&'a mut [u8]>,
}

impl<'a> PixelIteratorMut<'a> {
    fn new(p: &'a mut Pixels) -> (r: Self)
        ensures
            r.p is Some,
            (*r.p->0)@ == old(p)@,
            final(p)@ == (*final(r.p->0))@,
    {
        PixelIteratorMut { p: Some(p.pixels.as_mut_slice()) }
    }

    /// The bytes left to visit.
    pub open spec fn rest(&self) -> Seq<u8> {
        match self.p {
            Some(s) => (*s)@,
            None => Seq::empty(),
        }
    }

    /// The next pixel, if a whole one is left. What the caller writes through
    /// it lands in the buffer that the walk was made from.
    pub fn next(&mut self) -> (r: Option<OpcPixel<&'a mut [u8]>>)
        requires
            old(self).p is Some,
        ensures
            final(self).p is Some,
            old(self).rest().len() >= 3 ==> r is Some
                && r->0.channels() == old(self).rest().take(3)
                && final(self).rest() == old(self).rest().skip(3)
                && (*final(old(self).p->0))@
                    == (*final(r->0.x))@ + (*final(final(self).p->0))@,
            old(self).rest().len() < 3 ==> r is None && final(self).rest() == old(self).rest()
                && (*final(old(self).p->0))@ == (*final(final(self).p->0))@,
    {
        let s = self.p.take().unwrap();
        if s.len() < NUM_RGB_BYTES {
            self.p = Some(s);
            None
        } else {
            let (h, t) = s.split_at_mut(NUM_RGB_BYTES);
            self.p = Some(t);
            Some(OpcPixel::<&'a mut [u8]>::new(h))
        }
    }

    /// Skips `n` pixels and returns the one after them, if a whole one is
    /// left.
    pub fn nth(&mut self, n: usize) -> (r: Option<OpcPixel<&'a mut [u8]>>)
        requires
            old(self).p is Some,
        ensures
            final(self).p is Some,
            old(self).rest().len() >= 3 * n + 3 ==> r is Some
                && r->0.channels() == old(self).rest().subrange(3 * n, 3 * n + 3)
                && final(self).rest() == old(self).rest().skip(3 * n + 3)
                && (*final(old(self).p->0))@ == old(self).rest().take(3 * n)
                    + (*final(r->0.x))@ + (*final(final(self).p->0))@,
            old(self).rest().len() < 3 * n + 3 ==> r is None,
    {
        let s = self.p.take().unwrap();
        if s.len() / NUM_RGB_BYTES <= n {
            let end = s.len();
            let (_h, t) = s.split_at_mut(end);
            self.p = Some(t);
            None
        } else {
            let (_h, t) = s.split_at_mut(n * NUM_RGB_BYTES);
            self.p = Some(t);
            let r = self.next();
            assert(old(self).rest().subrange(3 * n, 3 * n + 3) =~= old(self).rest().skip(3 * n).take(3));
            assert(old(self).rest().skip(3 * n + 3) =~= old(self).rest().skip(3 * n).skip(3));
            r
        }
    }

    /// The number of whole pixels left.
    pub fn len(&self) -> (r: usize)
        ensures
            r == self.rest().len() / 3,
    {
        match &self.p {
            Some(s) => s.len() / NUM_RGB_BYTES,
            None => 0,
        }
    }
}

} // verus!
