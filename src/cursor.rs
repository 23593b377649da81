use vstd::prelude::*;

verus! {

/// Whether `n` bytes can be read from `s` starting at position `p`.
pub open spec fn avail(s: Seq<u8>, p: int, n: int) -> bool {
    0 <= p && p + n <= s.len()
}

/// The big-endian 16-bit value held at `s[p..p + 2]`.
pub open spec fn be16(s: Seq<u8>, p: int) -> int {
    s[p] as int * 256 + s[p + 1] as int
}

/// The big-endian 32-bit value held at `s[p..p + 4]`.
pub open spec fn be32(s: Seq<u8>, p: int) -> int {
    be16(s, p) * 65536 + be16(s, p + 2)
}

/// The little-endian 16-bit value held at `s[p..p + 2]`.
pub open spec fn le16(s: Seq<u8>, p: int) -> int {
    s[p] as int + s[p + 1] as int * 256
}

/// The little-endian 32-bit value held at `s[p..p + 4]`.
pub open spec fn le32(s: Seq<u8>, p: int) -> int {
    le16(s, p) + le16(s, p + 2) * 65536
}

/// The two bytes of `h`, least significant first.
pub open spec fn le16_bytes(h: u16) -> Seq<u8> {
    seq![(h % 256) as u8, (h / 256) as u8]
}

/// The four bytes of `w`, least significant first.
pub open spec fn le32_bytes(w: u32) -> Seq<u8> {
    seq![(w % 256) as u8, ((w / 256) % 256) as u8, ((w / 65536) % 256) as u8, (w / 16777216) as u8]
}

/// Reading a little-endian halfword and writing its bytes back gives the bytes read.
pub proof fn lemma_le16_bytes(s: Seq<u8>, p: int)
    requires
        avail(s, p, 2),
    ensures
        le16_bytes(le16(s, p) as u16) == s.subrange(p, p + 2),
{
    let v = le16(s, p);
    assert(0 <= v < 65536);
    assert(le16_bytes(v as u16) =~= s.subrange(p, p + 2));
}

/// Reading a little-endian word and writing its bytes back gives the bytes read.
pub proof fn lemma_le32_bytes(s: Seq<u8>, p: int)
    requires
        avail(s, p, 4),
    ensures
        le32_bytes(le32(s, p) as u32) == s.subrange(p, p + 4),
{
    let (a, b, c, d) = (s[p] as int, s[p + 1] as int, s[p + 2] as int, s[p + 3] as int);
    let v = le32(s, p);
    assert(v == a + b * 256 + c * 65536 + d * 16777216);
    assert(0 <= v < 0x1_0000_0000);
    assert(v % 256 == a) by (nonlinear_arith)
        requires v == a + b * 256 + c * 65536 + d * 16777216, 0 <= a < 256, 0 <= b < 256, 0 <= c < 256, 0 <= d < 256;
    assert((v / 256) % 256 == b) by (nonlinear_arith)
        requires v == a + b * 256 + c * 65536 + d * 16777216, 0 <= a < 256, 0 <= b < 256, 0 <= c < 256, 0 <= d < 256;
    assert((v / 65536) % 256 == c) by (nonlinear_arith)
        requires v == a + b * 256 + c * 65536 + d * 16777216, 0 <= a < 256, 0 <= b < 256, 0 <= c < 256, 0 <= d < 256;
    assert(v / 16777216 == d) by (nonlinear_arith)
        requires v == a + b * 256 + c * 65536 + d * 16777216, 0 <= a < 256, 0 <= b < 256, 0 <= c < 256, 0 <= d < 256;
    assert(le32_bytes(v as u32) =~= s.subrange(p, p + 4));
}

/// The big-endian halfword at `b[i..i + 2]`.
pub fn be16_at(b: &[u8], i: usize) -> (r: u16)
    requires
        avail(b@, i as int, 2),
    ensures
        r == be16(b@, i as int) as u16,
{
    (b[i] as u16) * 256 + b[i + 1] as u16
}

/// The big-endian word at `b[i..i + 4]`.
pub fn be32_at(b: &[u8], i: usize) -> (r: u32)
    requires
        avail(b@, i as int, 4),
    ensures
        r == be32(b@, i as int) as u32,
{
    (b[i] as u32) * 0x100_0000 + (b[i + 1] as u32) * 0x1_0000 + (b[i + 2] as u32) * 0x100 + b[i + 3] as u32
}

/// A seekable reader over an in-memory byte buffer.
///
/// The position may be set past the end of the buffer; reads from there fail.
pub struct ByteCursor<'a> {
    buf: &'a [u8],
    pos: usize,
}

impl<'a> ByteCursor<'a> {
    /// The bytes under the cursor.
    pub closed spec fn data(&self) -> Seq<u8> {
        self.buf@
    }

    /// The position of the next read.
    pub closed spec fn pos(&self) -> int {
        self.pos as int
    }

    /// A cursor at the start of `buf`.
    pub fn new(buf: &'a [u8]) -> (r: Self)
        ensures
            r.data() == buf@,
            r.pos() == 0,
    {
        ByteCursor { buf, pos: 0 }
    }

    /// The position of the next read.
    pub fn position(&self) -> (r: usize)
        ensures
            r as int == self.pos(),
    {
        self.pos
    }

    /// Moves to absolute position `p`, which may lie past the end.
    pub fn seek(&mut self, p: usize)
        ensures
            final(self).data() == old(self).data(),
            final(self).pos() == p as int,
    {
        self.pos = p;
    }

    fn has(&self, n: usize) -> (r: bool)
        ensures
            r == avail(self.data(), self.pos(), n as int),
    {
        self.pos <= self.buf.len() && self.buf.len() - self.pos >= n
    }

    /// Reads one byte.
    pub fn read_u8(&mut self) -> (r: Option<u8>)
        ensures
            final(self).data() == old(self).data(),
            avail(old(self).data(), old(self).pos(), 1) ==> r == Some(old(self).data()[old(self).pos()])
                && final(self).pos() == old(self).pos() + 1,
            !avail(old(self).data(), old(self).pos(), 1) ==> r is None && final(self).pos() == old(self).pos(),
    {
        if self.has(1) {
            let b = self.buf[self.pos];
            self.pos = self.pos + 1;
            Some(b)
        } else {
            None
        }
    }

    /// Reads a big-endian halfword.
    pub fn read_u16_be(&mut self) -> (r: Option<u16>)
        ensures
            final(self).data() == old(self).data(),
            avail(old(self).data(), old(self).pos(), 2) ==> r == Some(be16(old(self).data(), old(self).pos()) as u16)
                && final(self).pos() == old(self).pos() + 2,
            !avail(old(self).data(), old(self).pos(), 2) ==> r is None && final(self).pos() == old(self).pos(),
    {
        if self.has(2) {
            let p = self.pos;
            let v: u16 = (self.buf[p] as u16) * 256 + self.buf[p + 1] as u16;
            self.pos = p + 2;
            Some(v)
        } else {
            None
        }
    }

    /// Reads a big-endian signed halfword.
    pub fn read_i16_be(&mut self) -> (r: Option<i16>)
        ensures
            final(self).data() == old(self).data(),
            avail(old(self).data(), old(self).pos(), 2) ==> r == Some((be16(old(self).data(), old(self).pos()) as u16) as i16)
                && final(self).pos() == old(self).pos() + 2,
            !avail(old(self).data(), old(self).pos(), 2) ==> r is None && final(self).pos() == old(self).pos(),
    {
        match self.read_u16_be() {
            Some(v) => Some(v as i16),
            None => None,
        }
    }

    /// Reads a big-endian word.
    pub fn read_u32_be(&mut self) -> (r: Option<u32>)
        ensures
            final(self).data() == old(self).data(),
            avail(old(self).data(), old(self).pos(), 4) ==> r == Some(be32(old(self).data(), old(self).pos()) as u32)
                && final(self).pos() == old(self).pos() + 4,
            !avail(old(self).data(), old(self).pos(), 4) ==> r is None && final(self).pos() == old(self).pos(),
    {
        if self.has(4) {
            let p = self.pos;
            let v: u32 = (self.buf[p] as u32) * 0x100_0000 + (self.buf[p + 1] as u32) * 0x1_0000
                + (self.buf[p + 2] as u32) * 0x100 + self.buf[p + 3] as u32;
            self.pos = p + 4;
            Some(v)
        } else {
            None
        }
    }

    /// Reads a little-endian halfword.
    pub fn read_u16_le(&mut self) -> (r: Option<u16>)
        ensures
            final(self).data() == old(self).data(),
            avail(old(self).data(), old(self).pos(), 2) ==> r == Some(le16(old(self).data(), old(self).pos()) as u16)
                && final(self).pos() == old(self).pos() + 2,
            !avail(old(self).data(), old(self).pos(), 2) ==> r is None && final(self).pos() == old(self).pos(),
    {
        if self.has(2) {
            let p = self.pos;
            let v: u16 = self.buf[p] as u16 + (self.buf[p + 1] as u16) * 256;
            self.pos = p + 2;
            Some(v)
        } else {
            None
        }
    }

    /// Reads a little-endian word.
    pub fn read_u32_le(&mut self) -> (r: Option<u32>)
        ensures
            final(self).data() == old(self).data(),
            avail(old(self).data(), old(self).pos(), 4) ==> r == Some(le32(old(self).data(), old(self).pos()) as u32)
                && final(self).pos() == old(self).pos() + 4,
            !avail(old(self).data(), old(self).pos(), 4) ==> r is None && final(self).pos() == old(self).pos(),
    {
        if self.has(4) {
            let p = self.pos;
            let v: u32 = self.buf[p] as u32 + (self.buf[p + 1] as u32) * 0x100
                + (self.buf[p + 2] as u32) * 0x1_0000 + (self.buf[p + 3] as u32) * 0x100_0000;
            self.pos = p + 4;
            Some(v)
        } else {
            None
        }
    }

    /// Reads exactly `n` bytes.
    pub fn read_exact(&mut self, n: usize) -> (r: Option<Vec<u8>>)
        ensures
            final(self).data() == old(self).data(),
            avail(old(self).data(), old(self).pos(), n as int) ==> (r matches Some(v)
                && v@ == old(self).data().subrange(old(self).pos(), old(self).pos() + n)
                && final(self).pos() == old(self).pos() + n),
            !avail(old(self).data(), old(self).pos(), n as int) ==> r is None && final(self).pos() == old(self).pos(),
    {
        if self.has(n) {
            let p = self.pos;
            let len = self.buf.len();
            assert(p as int + n <= len);
            let mut v: Vec<u8> = Vec::new();
            let mut i: usize = 0;
            while i < n
                invariant
                    p as int + n <= len,
                    len == self.buf@.len(),
                    i <= n,
                    v@ == self.buf@.subrange(p as int, p + i),
                decreases n - i,
            {
                v.push(self.buf[p + i]);
                i = i + 1;
            }
            self.pos = p + n;
            Some(v)
        } else {
            None
        }
    }
}

} // verus!
