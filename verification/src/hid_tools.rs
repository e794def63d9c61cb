//! Little-endian report fields and a buffer writer that appends them.

use vstd::prelude::*;

verus! {

/// A value that serializes itself as `N` little-endian bytes.
pub trait ToLeBytes<const N: usize>: Sized {
    spec fn le_bytes_spec(self) -> Seq<u8>;

    fn to_le_bytes(self) -> (r: [u8; N])
        ensures
            r@ == self.le_bytes_spec(),
            r@.len() == N,
    ;
}

/// Little-endian bytes of a `u16`.
pub open spec fn le_u16(v: u16) -> Seq<u8> {
    seq![(v & 0xff) as u8, (v >> 8) as u8]
}

/// Little-endian bytes of a `u32`.
pub open spec fn le_u32(v: u32) -> Seq<u8> {
    seq![(v & 0xff) as u8, ((v >> 8) & 0xff) as u8, ((v >> 16) & 0xff) as u8, (v >> 24) as u8]
}

/// The `u16` whose little-endian bytes are `b0, b1`.
pub open spec fn u16_from_le(b0: u8, b1: u8) -> u16 {
    (b0 as u16) | ((b1 as u16) << 8)
}

/// The `u32` whose little-endian bytes are `b0, b1, b2, b3`.
pub open spec fn u32_from_le(b0: u8, b1: u8, b2: u8, b3: u8) -> u32 {
    (b0 as u32) | ((b1 as u32) << 8) | ((b2 as u32) << 16) | ((b3 as u32) << 24)
}

/// Decoding the little-endian bytes of a `u16` gives it back, and encoding a
/// decoded pair gives back the pair.
pub proof fn lemma_le_u16_round_trip(v: u16, b0: u8, b1: u8)
    ensures
        u16_from_le(le_u16(v)[0], le_u16(v)[1]) == v,
        le_u16(u16_from_le(b0, b1)) == seq![b0, b1],
{
    let lo = (v & 0xff) as u8;
    let hi = (v >> 8) as u8;
    assert((v & 0xff) < 256 && (v >> 8) < 256) by (bit_vector);
    assert(((lo as u16) | ((hi as u16) << 8)) == v) by (bit_vector)
        requires
            lo == (v & 0xff) as u8,
            hi == (v >> 8) as u8,
    ;
    let w = u16_from_le(b0, b1);
    assert((w & 0xff) as u8 == b0 && (w >> 8) as u8 == b1) by (bit_vector)
        requires
            w == (b0 as u16) | ((b1 as u16) << 8),
    ;
    assert(le_u16(w) =~= seq![b0, b1]);
}

/// Decoding the little-endian bytes of a `u32` gives it back, and encoding a
/// decoded quadruple gives back the quadruple.
pub proof fn lemma_le_u32_round_trip(v: u32, b0: u8, b1: u8, b2: u8, b3: u8)
    ensures
        u32_from_le(le_u32(v)[0], le_u32(v)[1], le_u32(v)[2], le_u32(v)[3]) == v,
        le_u32(u32_from_le(b0, b1, b2, b3)) == seq![b0, b1, b2, b3],
{
    let c0 = (v & 0xff) as u8;
    let c1 = ((v >> 8) & 0xff) as u8;
    let c2 = ((v >> 16) & 0xff) as u8;
    let c3 = (v >> 24) as u8;
    assert((v >> 24) < 256) by (bit_vector);
    assert(((c0 as u32) | ((c1 as u32) << 8) | ((c2 as u32) << 16) | ((c3 as u32) << 24)) == v)
        by (bit_vector)
        requires
            c0 == (v & 0xff) as u8,
            c1 == ((v >> 8) & 0xff) as u8,
            c2 == ((v >> 16) & 0xff) as u8,
            c3 == (v >> 24) as u8,
    ;
    let w = u32_from_le(b0, b1, b2, b3);
    assert((w & 0xff) as u8 == b0 && ((w >> 8) & 0xff) as u8 == b1 && ((w >> 16) & 0xff) as u8
        == b2 && (w >> 24) as u8 == b3) by (bit_vector)
        requires
            w == (b0 as u32) | ((b1 as u32) << 8) | ((b2 as u32) << 16) | ((b3 as u32) << 24),
    ;
    assert(le_u32(w) =~= seq![b0, b1, b2, b3]);
}

/// Little-endian means least significant byte first: the first byte is
/// the value modulo 256 and each later byte is worth 256 times the one
/// before it.
pub proof fn lemma_le_weights(v: u16, w: u32, b0: u8, b1: u8, b2: u8, b3: u8)
    ensures
        le_u16(v).len() == 2,
        le_u16(v)[0] as int + 256 * le_u16(v)[1] as int == v as int,
        le_u32(w).len() == 4,
        le_u32(w)[0] as int + 256 * le_u32(w)[1] as int + 65536 * le_u32(w)[2] as int + 16777216
            * le_u32(w)[3] as int == w as int,
        u16_from_le(b0, b1) as int == b0 as int + 256 * b1 as int,
        u32_from_le(b0, b1, b2, b3) as int == b0 as int + 256 * b1 as int + 65536 * b2 as int
            + 16777216 * b3 as int,
{
    assert((v & 0xff) as u8 as int + 256 * ((v >> 8) as u8 as int) == v as int) by (bit_vector);
    assert((w & 0xff) as u8 as int + 256 * (((w >> 8) & 0xff) as u8 as int) + 65536 * (((w >> 16)
        & 0xff) as u8 as int) + 16777216 * ((w >> 24) as u8 as int) == w as int) by (bit_vector);
    assert(((b0 as u16) | ((b1 as u16) << 8)) as int == b0 as int + 256 * b1 as int)
        by (bit_vector);
    assert(((b0 as u32) | ((b1 as u32) << 8) | ((b2 as u32) << 16) | ((b3 as u32) << 24)) as int
        == b0 as int + 256 * b1 as int + 65536 * b2 as int + 16777216 * b3 as int) by (bit_vector);
}

impl ToLeBytes<2> for u16 {
    open spec fn le_bytes_spec(self) -> Seq<u8> {
        le_u16(self)
    }

    fn to_le_bytes(self) -> (r: [u8; 2]) {
        let r = [(self & 0xff) as u8, (self >> 8) as u8];
        assert(r@ =~= le_u16(self));
        r
    }
}

impl ToLeBytes<2> for i16 {
    open spec fn le_bytes_spec(self) -> Seq<u8> {
        le_u16(self as u16)
    }

    fn to_le_bytes(self) -> (r: [u8; 2]) {
        let u = self as u16;
        let r = [(u & 0xff) as u8, (u >> 8) as u8];
        assert(r@ =~= le_u16(u));
        r
    }
}

impl ToLeBytes<4> for u32 {
    open spec fn le_bytes_spec(self) -> Seq<u8> {
        le_u32(self)
    }

    fn to_le_bytes(self) -> (r: [u8; 4]) {
        let r = [
            (self & 0xff) as u8,
            ((self >> 8) & 0xff) as u8,
            ((self >> 16) & 0xff) as u8,
            (self >> 24) as u8,
        ];
        assert(r@ =~= le_u32(self));
        r
    }
}

/// Decodes a little-endian `u16`.
pub fn u16_from_le_bytes(b0: u8, b1: u8) -> (r: u16)
    ensures
        r == u16_from_le(b0, b1),
{
    (b0 as u16) | ((b1 as u16) << 8)
}

/// Decodes a little-endian `u32`.
pub fn u32_from_le_bytes(b0: u8, b1: u8, b2: u8, b3: u8) -> (r: u32)
    ensures
        r == u32_from_le(b0, b1, b2, b3),
{
    (b0 as u32) | ((b1 as u32) << 8) | ((b2 as u32) << 16) | ((b3 as u32) << 24)
}

/// Fills a report buffer one field at a time; each [`Report::field`] call
/// appends its bytes after the ones already written.
pub struct Report<'a> {
    /// The buffer being filled.
    pub buf: &'a mut [u8],
    /// How many leading bytes of `buf` have been written so far.
    pub len: usize,
}

impl<'a> Report<'a> {
    pub open spec fn bytes(&self) -> Seq<u8> {
        self.buf@
    }

    pub open spec fn written(&self) -> nat {
        self.len as nat
    }

    pub fn new(buf: &'a mut [u8]) -> (r: Self)
        ensures
            r.bytes() == old(buf)@,
            r.written() == 0,
            final(buf)@ == final(r.buf)@,
    {
        Self { buf, len: 0 }
    }

    pub fn field<T: ToLeBytes<N>, const N: usize>(&mut self, value: T) -> (r: &mut Self)
        requires
            old(self).written() + N <= old(self).bytes().len(),
        ensures
            r.written() == old(self).written() + N,
            r.bytes() == old(self).bytes().take(old(self).written() as int) + value.le_bytes_spec()
                + old(self).bytes().skip(old(self).written() + N),
            *final(self) == *final(r),
            final(r.buf)@ == final(old(self).buf)@,
    {
        let bytes = value.to_le_bytes();
        let start = self.len;
        let total = self.buf.len();
        let ghost before = self.buf@;
        let mut i: usize = 0;
        while i < N
            invariant
                i <= N,
                start == self.len,
                start + N <= self.buf@.len(),
                total == self.buf@.len(),
                final(self.buf)@ == final(old(self).buf)@,
                before.len() == self.buf@.len(),
                bytes@ == value.le_bytes_spec(),
                bytes@.len() == N,
                forall|k: int| 0 <= k < start ==> self.buf@[k] == before[k],
                forall|k: int| start + N <= k < before.len() ==> self.buf@[k] == before[k],
                forall|k: int| 0 <= k < i ==> self.buf@[start + k] == bytes@[k],
            decreases N - i,
        {
            self.buf[start + i] = bytes[i];
            i = i + 1;
        }
        self.len = start + N;
        assert(self.buf@ =~= before.take(start as int) + value.le_bytes_spec() + before.skip(start + N));
        self
    }

    pub fn len(&self) -> (r: usize)
        ensures
            r == self.written(),
    {
        self.len
    }
}

} // verus!
