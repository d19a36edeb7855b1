//! Framing of reply packets: a header with the total length, the result and
//! the request's id, then the payload.
use crate::wire::{le32, le64, read_u32, read_u64};
use vstd::bytes::*;
use vstd::prelude::*;
use vstd::slice::{slice_subrange, slice_to_vec};

verus! {

/// Size in bytes of a reply header.
pub const OUT_HEADER_SIZE: usize = 16;

/// Input/output error.
pub const EIO: i32 = 5;

/// Function not implemented.
pub const ENOSYS: i32 = 38;

/// Protocol error.
pub const EPROTO: i32 = 71;

/// The reply packet for request `unique` with result `result` (zero, or a
/// negated errno) and payload `payload`.
pub open spec fn reply_bytes(unique: u64, result: i32, payload: Seq<u8>) -> Seq<u8> {
    spec_u32_to_le_bytes((OUT_HEADER_SIZE + payload.len()) as u32) + spec_u32_to_le_bytes(
        result as u32,
    ) + spec_u64_to_le_bytes(unique) + payload
}

/// What a reply packet says: its request id, result and payload; `None` where
/// the bytes are no whole reply.
pub open spec fn reply_fields(b: Seq<u8>) -> Option<(u64, i32, Seq<u8>)> {
    if b.len() < OUT_HEADER_SIZE || le32(b, 0) != b.len() {
        None
    } else {
        Some((le64(b, 8), le32(b, 4) as i32, b.subrange(OUT_HEADER_SIZE as int, b.len() as int)))
    }
}

/// Frames one reply packet.
pub fn encode_reply(unique: u64, result: i32, payload: &[u8]) -> (r: Vec<u8>)
    requires
        OUT_HEADER_SIZE + payload@.len() <= u32::MAX,
    ensures
        r@ == reply_bytes(unique, result, payload@),
{
    let total = (OUT_HEADER_SIZE + payload.len()) as u32;
    let mut out = u32_to_le_bytes(total);
    let res = u32_to_le_bytes(result as u32);
    out.extend_from_slice(res.as_slice());
    let id = u64_to_le_bytes(unique);
    out.extend_from_slice(id.as_slice());
    out.extend_from_slice(payload);
    out
}

/// Reads back a reply packet's request id, result and payload.
pub fn decode_reply(b: &[u8]) -> (r: Option<(u64, i32, Vec<u8>)>)
    ensures
        match r {
            Some((unique, result, payload)) => reply_fields(b@) == Some(
                (unique, result, payload@),
            ),
            None => reply_fields(b@) is None,
        },
{
    if b.len() < OUT_HEADER_SIZE {
        return None;
    }
    let total = read_u32(b, 0);
    if total as usize != b.len() {
        return None;
    }
    let result = read_u32(b, 4) as i32;
    let unique = read_u64(b, 8);
    let payload = slice_to_vec(slice_subrange(b, OUT_HEADER_SIZE, b.len()));
    Some((unique, result, payload))
}

/// Reading a framed reply gives back the id, result and payload it was
/// framed from.
pub proof fn lemma_reply_round_trip(unique: u64, result: i32, payload: Seq<u8>)
    requires
        OUT_HEADER_SIZE + payload.len() <= u32::MAX,
    ensures
        reply_fields(reply_bytes(unique, result, payload)) == Some((unique, result, payload)),
{
    lemma_auto_spec_u32_to_from_le_bytes();
    lemma_auto_spec_u64_to_from_le_bytes();
    let b = reply_bytes(unique, result, payload);
    let total = (OUT_HEADER_SIZE + payload.len()) as u32;
    assert(b.subrange(0, 4) =~= spec_u32_to_le_bytes(total));
    assert(b.subrange(4, 8) =~= spec_u32_to_le_bytes(result as u32));
    assert(b.subrange(8, 16) =~= spec_u64_to_le_bytes(unique));
    assert(b.subrange(16, b.len() as int) =~= payload);
    assert((result as u32) as i32 == result) by (bit_vector);
}

/// A one-shot reply handle bound to a request id. Each of its methods gives
/// the one packet that answers that request.
#[derive(Clone, Copy, Debug, PartialEq, Eq, Structural)]
pub struct Reply {
    pub unique: u64,
}

impl Reply {
    pub fn new(unique: u64) -> (r: Reply)
        ensures
            r.unique == unique,
    {
        Reply { unique }
    }

    /// The success reply with `payload`.
    pub fn ok(self, payload: &[u8]) -> (r: Vec<u8>)
        requires
            OUT_HEADER_SIZE + payload@.len() <= u32::MAX,
        ensures
            r@ == reply_bytes(self.unique, 0, payload@),
    {
        encode_reply(self.unique, 0, payload)
    }

    /// The error reply for the positive error number `errno`: the result is
    /// `-errno` and there is no payload.
    pub fn error(self, errno: i32) -> (r: Vec<u8>)
        requires
            errno > 0,
        ensures
            r@ == reply_bytes(self.unique, -errno as i32, Seq::empty()),
    {
        let none: [u8; 0] = [];
        encode_reply(self.unique, -errno, none.as_slice())
    }
}

/// Size in bytes of a directory entry's fixed part.
pub const DIRENT_SIZE: usize = 24;

/// The kind of a file, as a directory listing reports it.
#[derive(Clone, Copy, Debug, PartialEq, Eq, Structural)]
pub enum FileType {
    NamedPipe,
    CharDevice,
    BlockDevice,
    Directory,
    RegularFile,
    Symlink,
    Socket,
}

impl FileType {
    /// The type field of a directory entry: the file-type bits of the mode,
    /// shifted down by twelve.
    pub open spec fn spec_dtype(self) -> u32 {
        match self {
            FileType::NamedPipe => 1,
            FileType::CharDevice => 2,
            FileType::Directory => 4,
            FileType::BlockDevice => 6,
            FileType::RegularFile => 8,
            FileType::Symlink => 10,
            FileType::Socket => 12,
        }
    }

    pub fn dtype(self) -> (r: u32)
        ensures
            r == self.spec_dtype(),
    {
        match self {
            FileType::NamedPipe => 1,
            FileType::CharDevice => 2,
            FileType::Directory => 4,
            FileType::BlockDevice => 6,
            FileType::RegularFile => 8,
            FileType::Symlink => 10,
            FileType::Socket => 12,
        }
    }
}

/// Zero bytes that pad an entry of `len` bytes to a multiple of eight.
pub open spec fn padding_for(len: int) -> Seq<u8> {
    Seq::new(((8 - len % 8) % 8) as nat, |i: int| 0u8)
}

/// A directory entry as it stands in a listing: inode, offset of the next
/// entry, name length, type, name, and zero padding to eight bytes.
pub open spec fn dirent_bytes(ino: u64, offset: i64, kind: FileType, name: Seq<u8>) -> Seq<u8> {
    spec_u64_to_le_bytes(ino) + spec_u64_to_le_bytes(offset as u64) + spec_u32_to_le_bytes(
        name.len() as u32,
    ) + spec_u32_to_le_bytes(kind.spec_dtype()) + name + padding_for(DIRENT_SIZE + name.len())
}

/// A reply to READDIR: entries are gathered within the size the kernel
/// allows, then sent as one packet.
#[derive(Debug)]
pub struct ReplyDirectory {
    pub reply: Reply,
    pub size: usize,
    pub data: Vec<u8>,
}

impl ReplyDirectory {
    /// An empty listing for request `unique` that may hold `size` bytes.
    pub fn new(unique: u64, size: usize) -> (r: ReplyDirectory)
        ensures
            r.reply.unique == unique,
            r.size == size,
            r.data@ == Seq::<u8>::empty(),
    {
        ReplyDirectory { reply: Reply::new(unique), size, data: Vec::new() }
    }

    /// Appends an entry unless it would take the listing past its size;
    /// returns `true` when the entry did not fit (the listing is full), and
    /// then leaves the listing as it was.
    pub fn add(&mut self, ino: u64, offset: i64, kind: FileType, name: &[u8]) -> (full: bool)
        requires
            name@.len() <= u32::MAX,
            DIRENT_SIZE + name@.len() + 8 <= usize::MAX,
        ensures
            final(self).reply == old(self).reply,
            final(self).size == old(self).size,
            ({
                let entry = dirent_bytes(ino, offset, kind, name@);
                if old(self).data@.len() + entry.len() > old(self).size {
                    full && final(self).data@ == old(self).data@
                } else {
                    !full && final(self).data@ == old(self).data@ + entry
                }
            }),
    {
        proof {
            lemma_auto_spec_u32_to_from_le_bytes();
            lemma_auto_spec_u64_to_from_le_bytes();
        }
        let entlen = DIRENT_SIZE + name.len();
        let padlen = (8 - entlen % 8) % 8;
        if self.data.len() > self.size || entlen + padlen > self.size - self.data.len() {
            return true;
        }
        let ghost start = self.data@;
        self.data.extend_from_slice(u64_to_le_bytes(ino).as_slice());
        self.data.extend_from_slice(u64_to_le_bytes(#[verifier::truncate] (offset as u64)).as_slice());
        self.data.extend_from_slice(u32_to_le_bytes(name.len() as u32).as_slice());
        self.data.extend_from_slice(u32_to_le_bytes(kind.dtype()).as_slice());
        self.data.extend_from_slice(name);
        let ghost body = self.data@;
        let mut i: usize = 0;
        while i < padlen
            invariant
                i <= padlen < 8,
                self.data@ == body + Seq::new(i as nat, |k: int| 0u8),
                self.reply == old(self).reply,
                self.size == old(self).size,
            decreases padlen - i,
        {
            self.data.push(0u8);
            i = i + 1;
            assert(self.data@ =~= body + Seq::new(i as nat, |k: int| 0u8));
        }
        assert(self.data@ =~= start + dirent_bytes(ino, offset, kind, name@));
        false
    }

    /// The reply packet holding the entries gathered so far.
    pub fn ok(self) -> (r: Vec<u8>)
        requires
            OUT_HEADER_SIZE + self.data@.len() <= u32::MAX,
        ensures
            r@ == reply_bytes(self.reply.unique, 0, self.data@),
    {
        self.reply.ok(self.data.as_slice())
    }

    /// The error reply for the positive error number `errno`.
    pub fn error(self, errno: i32) -> (r: Vec<u8>)
        requires
            errno > 0,
        ensures
            r@ == reply_bytes(self.reply.unique, -errno as i32, Seq::empty()),
    {
        self.reply.error(errno)
    }
}

} // verus!
