//! The system-exclusive payload: a 16-bit big-endian system identifier
//! followed by opaque vendor data.
use vstd::prelude::*;
use vstd::slice::slice_subrange;

verus! {

/// The two big-endian bytes that encode `id`.
pub open spec fn id_bytes(id: u16) -> Seq<u8> {
    seq![(id / 256) as u8, (id % 256) as u8]
}

/// The identifier that a raw system-exclusive buffer carries: its first two
/// bytes, most significant first, or 0 when it is shorter than two bytes.
pub open spec fn system_id_of(s: Seq<u8>) -> u16 {
    if s.len() < 2 {
        0
    } else {
        (s[0] as int * 256 + s[1] as int) as u16
    }
}

/// The vendor data of a raw system-exclusive buffer: all after the first two
/// bytes, or nothing when it is shorter than two bytes.
pub open spec fn data_of(s: Seq<u8>) -> Seq<u8> {
    if s.len() < 2 {
        Seq::empty()
    } else {
        s.subrange(2, s.len() as int)
    }
}

/// The identifier and the data that built a buffer are read back from it.
pub proof fn lemma_system_exclusive_round_trip(id: u16, data: Seq<u8>)
    ensures
        system_id_of(id_bytes(id) + data) == id,
        data_of(id_bytes(id) + data) == data,
{
    assert(data_of(id_bytes(id) + data) =~= data);
}

/// A buffer of fewer than two bytes reads as identifier 0 with no data.
pub proof fn lemma_short_default(s: Seq<u8>)
    requires
        s.len() < 2,
    ensures
        system_id_of(s) == 0,
        data_of(s) == Seq::<u8>::empty(),
{
}

#[derive(Clone, Debug)]
pub struct SystemExclusiveData {
    sys_exclusive: Vec<u8>,
}

impl View for SystemExclusiveData {
    type V = Seq<u8>;

    closed spec fn view(&self) -> Seq<u8> {
        self.sys_exclusive@
    }
}

impl SystemExclusiveData {
    /// Builds the wire buffer for `systemid` followed by `data`.
    pub fn newo(systemid: u16, data: Vec<u8>) -> (r: Self)
        requires
            data@.len() + 2 <= usize::MAX,
        ensures
            r@ == id_bytes(systemid) + data@,
    {
        let mut data = data;
        let syshigh: u8 = (systemid / 256) as u8;
        let syslow: u8 = (systemid % 256) as u8;
        let mut header: Vec<u8> = vec![syshigh, syslow];
        header.append(&mut data);
        SystemExclusiveData { sys_exclusive: header }
    }

    /// Wraps raw decoded bytes verbatim.
    pub fn from_bytes(t: Vec<u8>) -> (r: Self)
        ensures
            r@ == t@,
    {
        SystemExclusiveData { sys_exclusive: t }
    }

    /// Hands back the owned buffer, identifier bytes included.
    pub fn into_bytes(self) -> (r: Vec<u8>)
        ensures
            r@ == self@,
    {
        self.sys_exclusive
    }

    /// The number of bytes on the wire, identifier bytes included.
    pub fn len_bytes(&self) -> (r: usize)
        ensures
            r == self@.len(),
    {
        self.sys_exclusive.len()
    }

    pub fn get_system_id(&self) -> (r: u16)
        ensures
            r == system_id_of(self@),
    {
        if self.sys_exclusive.len() < 2 {
            0
        } else {
            (self.sys_exclusive[0] as u16) * 256 + (self.sys_exclusive[1] as u16)
        }
    }

    pub fn get_data(&self) -> (r: &[u8])
        ensures
            r@ == data_of(self@),
    {
        if self.sys_exclusive.len() < 2 {
            slice_subrange(self.sys_exclusive.as_slice(), 0, 0)
        } else {
            slice_subrange(self.sys_exclusive.as_slice(), 2, self.sys_exclusive.len())
        }
    }
}

} // verus!
