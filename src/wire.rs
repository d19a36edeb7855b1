//! Little-endian integers and a forward-only cursor over a packet's bytes.
use vstd::bytes::*;
use vstd::prelude::*;
use vstd::slice::*;

verus! {

/// The `u32` stored little-endian at `off` in `b`.
pub open spec fn le32(b: Seq<u8>, off: int) -> u32 {
    spec_u32_from_le_bytes(b.subrange(off, off + 4))
}

/// The `u64` stored little-endian at `off` in `b`.
pub open spec fn le64(b: Seq<u8>, off: int) -> u64 {
    spec_u64_from_le_bytes(b.subrange(off, off + 8))
}

pub fn read_u32(b: &[u8], off: usize) -> (r: u32)
    requires
        off + 4 <= b.len(),
    ensures
        r == le32(b@, off as int),
{
    u32_from_le_bytes(slice_subrange(b, off, off + 4))
}

pub fn read_u64(b: &[u8], off: usize) -> (r: u64)
    requires
        off + 8 <= b.len(),
    ensures
        r == le64(b@, off as int),
{
    u64_from_le_bytes(slice_subrange(b, off, off + 8))
}

/// `s` is the NUL-terminated string that starts at `p` in `b`: the bytes up to,
/// and not including, the first zero byte at or after `p`.
pub open spec fn is_cstr_at(b: Seq<u8>, p: int, s: Seq<u8>) -> bool {
    &&& 0 <= p
    &&& p + s.len() < b.len()
    &&& b[p + s.len()] == 0
    &&& s == b.subrange(p, p + s.len())
    &&& forall|k: int| 0 <= k < s.len() ==> s[k] != 0
}

/// No zero byte stands at or after `p` in `b`.
pub open spec fn no_nul_from(b: Seq<u8>, p: int) -> bool {
    forall|k: int| p <= k < b.len() ==> b[k] != 0
}

/// A reader over a borrowed byte buffer that hands out fixed-size records and
/// NUL-terminated strings in sequence. It never changes the buffer.
pub struct ArgumentIterator<'a> {
    pub data: &'a [u8],
    pub pos: usize,
}

impl<'a> ArgumentIterator<'a> {
    pub open spec fn wf(&self) -> bool {
        self.pos <= self.data@.len()
    }

    pub fn new(data: &'a [u8]) -> (r: Self)
        ensures
            r.wf(),
            r.data@ == data@,
            r.pos == 0,
    {
        ArgumentIterator { data, pos: 0 }
    }

    /// Number of bytes not yet consumed.
    pub fn len(&self) -> (r: usize)
        requires
            self.wf(),
        ensures
            r == self.data@.len() - self.pos,
    {
        self.data.len() - self.pos
    }

    /// Consumes `n` bytes and returns the offset at which they start, or
    /// `None` (consuming nothing) if fewer than `n` remain.
    pub fn fetch(&mut self, n: usize) -> (r: Option<usize>)
        requires
            old(self).wf(),
        ensures
            final(self).wf(),
            final(self).data@ == old(self).data@,
            old(self).pos + n <= old(self).data@.len() ==> r == Some(old(self).pos)
                && final(self).pos == old(self).pos + n,
            old(self).pos + n > old(self).data@.len() ==> r is None
                && final(self).pos == old(self).pos,
    {
        if n <= self.data.len() - self.pos {
            let at = self.pos;
            self.pos = self.pos + n;
            Some(at)
        } else {
            None
        }
    }

    /// Consumes `n` bytes and returns them, or `None` (consuming nothing) if
    /// fewer than `n` remain.
    pub fn fetch_bytes(&mut self, n: usize) -> (r: Option<&'a [u8]>)
        requires
            old(self).wf(),
        ensures
            final(self).wf(),
            final(self).data@ == old(self).data@,
            old(self).pos + n <= old(self).data@.len() ==> r is Some
                && r->0@ == old(self).data@.subrange(old(self).pos as int, old(self).pos + n)
                && final(self).pos == old(self).pos + n,
            old(self).pos + n > old(self).data@.len() ==> r is None
                && final(self).pos == old(self).pos,
    {
        if n <= self.data.len() - self.pos {
            let s = slice_subrange(self.data, self.pos, self.pos + n);
            self.pos = self.pos + n;
            Some(s)
        } else {
            None
        }
    }

    /// Returns the bytes before the next zero byte and consumes them with the
    /// zero byte; `None` (consuming nothing) if no zero byte remains.
    pub fn fetch_str(&mut self) -> (r: Option<&'a [u8]>)
        requires
            old(self).wf(),
        ensures
            final(self).wf(),
            final(self).data@ == old(self).data@,
            match r {
                Some(s) => {
                    &&& is_cstr_at(old(self).data@, old(self).pos as int, s@)
                    &&& final(self).pos == old(self).pos + s@.len() + 1
                },
                None => {
                    &&& no_nul_from(old(self).data@, old(self).pos as int)
                    &&& final(self).pos == old(self).pos
                },
            },
    {
        let data = self.data;
        let start = self.pos;
        let mut i: usize = start;
        while i < data.len() && data[i] != 0
            invariant
                start <= i <= data@.len(),
                forall|k: int| start <= k < i ==> data@[k] != 0,
            decreases data@.len() - i,
        {
            i = i + 1;
        }
        if i < data.len() {
            self.pos = i + 1;
            Some(slice_subrange(data, start, i))
        } else {
            None
        }
    }

    /// Returns every byte not yet consumed, possibly none, and consumes them.
    pub fn fetch_all(&mut self) -> (r: &'a [u8])
        requires
            old(self).wf(),
        ensures
            final(self).wf(),
            final(self).data@ == old(self).data@,
            r@ == old(self).data@.subrange(old(self).pos as int, old(self).data@.len() as int),
            final(self).pos == old(self).data@.len(),
    {
        let s = slice_subrange(self.data, self.pos, self.data.len());
        self.pos = self.data.len();
        s
    }
}

} // verus!
