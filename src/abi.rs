//! Fixed-size records of the kernel protocol (ABI 7.8), stored in the
//! kernel's byte order on little-endian hosts, and their decoders.
use crate::wire::{le32, le64, read_u32, read_u64};
use vstd::bytes::*;
use vstd::prelude::*;

verus! {

/// Size in bytes of [`InHeader`].
pub const IN_HEADER_SIZE: usize = 40;

/// Header that starts every request packet.
#[derive(Clone, Copy, Debug, PartialEq, Eq, Structural)]
pub struct InHeader {
    pub len: u32,
    pub opcode: u32,
    pub unique: u64,
    pub nodeid: u64,
    pub uid: u32,
    pub gid: u32,
    pub pid: u32,
    pub padding: u32,
}

impl InHeader {
    /// The record stored at `off` in `b`.
    pub open spec fn spec_at(b: Seq<u8>, off: int) -> Self {
        InHeader {
            len: le32(b, off + 0),
            opcode: le32(b, off + 4),
            unique: le64(b, off + 8),
            nodeid: le64(b, off + 16),
            uid: le32(b, off + 24),
            gid: le32(b, off + 28),
            pid: le32(b, off + 32),
            padding: le32(b, off + 36),
        }
    }

    pub fn read_at(b: &[u8], off: usize) -> (r: Self)
        requires
            off + IN_HEADER_SIZE <= b.len(),
        ensures
            r == Self::spec_at(b@, off as int),
    {
        InHeader {
            len: read_u32(b, off + 0),
            opcode: read_u32(b, off + 4),
            unique: read_u64(b, off + 8),
            nodeid: read_u64(b, off + 16),
            uid: read_u32(b, off + 24),
            gid: read_u32(b, off + 28),
            pid: read_u32(b, off + 32),
            padding: read_u32(b, off + 36),
        }
    }
}

/// Size in bytes of [`ForgetIn`].
pub const FORGET_IN_SIZE: usize = 8;

/// Arguments of FORGET.
#[derive(Clone, Copy, Debug, PartialEq, Eq, Structural)]
pub struct ForgetIn {
    pub nlookup: u64,
}

impl ForgetIn {
    /// The record stored at `off` in `b`.
    pub open spec fn spec_at(b: Seq<u8>, off: int) -> Self {
        ForgetIn {
            nlookup: le64(b, off + 0),
        }
    }

    pub fn read_at(b: &[u8], off: usize) -> (r: Self)
        requires
            off + FORGET_IN_SIZE <= b.len(),
        ensures
            r == Self::spec_at(b@, off as int),
    {
        ForgetIn {
            nlookup: read_u64(b, off + 0),
        }
    }
}

/// Size in bytes of [`SetattrIn`].
pub const SETATTR_IN_SIZE: usize = 88;

/// Arguments of SETATTR; `valid` tells which fields are set.
#[derive(Clone, Copy, Debug, PartialEq, Eq, Structural)]
pub struct SetattrIn {
    pub valid: u32,
    pub padding: u32,
    pub fh: u64,
    pub size: u64,
    pub unused1: u64,
    pub atime: u64,
    pub mtime: u64,
    pub unused2: u64,
    pub atimensec: u32,
    pub mtimensec: u32,
    pub unused3: u32,
    pub mode: u32,
    pub unused4: u32,
    pub uid: u32,
    pub gid: u32,
    pub unused5: u32,
}

impl SetattrIn {
    /// The record stored at `off` in `b`.
    pub open spec fn spec_at(b: Seq<u8>, off: int) -> Self {
        SetattrIn {
            valid: le32(b, off + 0),
            padding: le32(b, off + 4),
            fh: le64(b, off + 8),
            size: le64(b, off + 16),
            unused1: le64(b, off + 24),
            atime: le64(b, off + 32),
            mtime: le64(b, off + 40),
            unused2: le64(b, off + 48),
            atimensec: le32(b, off + 56),
            mtimensec: le32(b, off + 60),
            unused3: le32(b, off + 64),
            mode: le32(b, off + 68),
            unused4: le32(b, off + 72),
            uid: le32(b, off + 76),
            gid: le32(b, off + 80),
            unused5: le32(b, off + 84),
        }
    }

    pub fn read_at(b: &[u8], off: usize) -> (r: Self)
        requires
            off + SETATTR_IN_SIZE <= b.len(),
        ensures
            r == Self::spec_at(b@, off as int),
    {
        SetattrIn {
            valid: read_u32(b, off + 0),
            padding: read_u32(b, off + 4),
            fh: read_u64(b, off + 8),
            size: read_u64(b, off + 16),
            unused1: read_u64(b, off + 24),
            atime: read_u64(b, off + 32),
            mtime: read_u64(b, off + 40),
            unused2: read_u64(b, off + 48),
            atimensec: read_u32(b, off + 56),
            mtimensec: read_u32(b, off + 60),
            unused3: read_u32(b, off + 64),
            mode: read_u32(b, off + 68),
            unused4: read_u32(b, off + 72),
            uid: read_u32(b, off + 76),
            gid: read_u32(b, off + 80),
            unused5: read_u32(b, off + 84),
        }
    }
}

/// Size in bytes of [`MknodIn`].
pub const MKNOD_IN_SIZE: usize = 8;

/// Arguments of MKNOD.
#[derive(Clone, Copy, Debug, PartialEq, Eq, Structural)]
pub struct MknodIn {
    pub mode: u32,
    pub rdev: u32,
}

impl MknodIn {
    /// The record stored at `off` in `b`.
    pub open spec fn spec_at(b: Seq<u8>, off: int) -> Self {
        MknodIn {
            mode: le32(b, off + 0),
            rdev: le32(b, off + 4),
        }
    }

    pub fn read_at(b: &[u8], off: usize) -> (r: Self)
        requires
            off + MKNOD_IN_SIZE <= b.len(),
        ensures
            r == Self::spec_at(b@, off as int),
    {
        MknodIn {
            mode: read_u32(b, off + 0),
            rdev: read_u32(b, off + 4),
        }
    }
}

/// Size in bytes of [`MkdirIn`].
pub const MKDIR_IN_SIZE: usize = 8;

/// Arguments of MKDIR.
#[derive(Clone, Copy, Debug, PartialEq, Eq, Structural)]
pub struct MkdirIn {
    pub mode: u32,
    pub padding: u32,
}

impl MkdirIn {
    /// The record stored at `off` in `b`.
    pub open spec fn spec_at(b: Seq<u8>, off: int) -> Self {
        MkdirIn {
            mode: le32(b, off + 0),
            padding: le32(b, off + 4),
        }
    }

    pub fn read_at(b: &[u8], off: usize) -> (r: Self)
        requires
            off + MKDIR_IN_SIZE <= b.len(),
        ensures
            r == Self::spec_at(b@, off as int),
    {
        MkdirIn {
            mode: read_u32(b, off + 0),
            padding: read_u32(b, off + 4),
        }
    }
}

/// Size in bytes of [`RenameIn`].
pub const RENAME_IN_SIZE: usize = 8;

/// Arguments of RENAME.
#[derive(Clone, Copy, Debug, PartialEq, Eq, Structural)]
pub struct RenameIn {
    pub newdir: u64,
}

impl RenameIn {
    /// The record stored at `off` in `b`.
    pub open spec fn spec_at(b: Seq<u8>, off: int) -> Self {
        RenameIn {
            newdir: le64(b, off + 0),
        }
    }

    pub fn read_at(b: &[u8], off: usize) -> (r: Self)
        requires
            off + RENAME_IN_SIZE <= b.len(),
        ensures
            r == Self::spec_at(b@, off as int),
    {
        RenameIn {
            newdir: read_u64(b, off + 0),
        }
    }
}

/// Size in bytes of [`LinkIn`].
pub const LINK_IN_SIZE: usize = 8;

/// Arguments of LINK.
#[derive(Clone, Copy, Debug, PartialEq, Eq, Structural)]
pub struct LinkIn {
    pub oldnodeid: u64,
}

impl LinkIn {
    /// The record stored at `off` in `b`.
    pub open spec fn spec_at(b: Seq<u8>, off: int) -> Self {
        LinkIn {
            oldnodeid: le64(b, off + 0),
        }
    }

    pub fn read_at(b: &[u8], off: usize) -> (r: Self)
        requires
            off + LINK_IN_SIZE <= b.len(),
        ensures
            r == Self::spec_at(b@, off as int),
    {
        LinkIn {
            oldnodeid: read_u64(b, off + 0),
        }
    }
}

/// Size in bytes of [`OpenIn`].
pub const OPEN_IN_SIZE: usize = 8;

/// Arguments of OPEN and OPENDIR.
#[derive(Clone, Copy, Debug, PartialEq, Eq, Structural)]
pub struct OpenIn {
    pub flags: u32,
    pub mode: u32,
}

impl OpenIn {
    /// The record stored at `off` in `b`.
    pub open spec fn spec_at(b: Seq<u8>, off: int) -> Self {
        OpenIn {
            flags: le32(b, off + 0),
            mode: le32(b, off + 4),
        }
    }

    pub fn read_at(b: &[u8], off: usize) -> (r: Self)
        requires
            off + OPEN_IN_SIZE <= b.len(),
        ensures
            r == Self::spec_at(b@, off as int),
    {
        OpenIn {
            flags: read_u32(b, off + 0),
            mode: read_u32(b, off + 4),
        }
    }
}

/// Size in bytes of [`ReadIn`].
pub const READ_IN_SIZE: usize = 24;

/// Arguments of READ and READDIR.
#[derive(Clone, Copy, Debug, PartialEq, Eq, Structural)]
pub struct ReadIn {
    pub fh: u64,
    pub offset: u64,
    pub size: u32,
    pub padding: u32,
}

impl ReadIn {
    /// The record stored at `off` in `b`.
    pub open spec fn spec_at(b: Seq<u8>, off: int) -> Self {
        ReadIn {
            fh: le64(b, off + 0),
            offset: le64(b, off + 8),
            size: le32(b, off + 16),
            padding: le32(b, off + 20),
        }
    }

    pub fn read_at(b: &[u8], off: usize) -> (r: Self)
        requires
            off + READ_IN_SIZE <= b.len(),
        ensures
            r == Self::spec_at(b@, off as int),
    {
        ReadIn {
            fh: read_u64(b, off + 0),
            offset: read_u64(b, off + 8),
            size: read_u32(b, off + 16),
            padding: read_u32(b, off + 20),
        }
    }
}

/// Size in bytes of [`WriteIn`].
pub const WRITE_IN_SIZE: usize = 24;

/// Arguments of WRITE; `size` bytes of data follow.
#[derive(Clone, Copy, Debug, PartialEq, Eq, Structural)]
pub struct WriteIn {
    pub fh: u64,
    pub offset: u64,
    pub size: u32,
    pub write_flags: u32,
}

impl WriteIn {
    /// The record stored at `off` in `b`.
    pub open spec fn spec_at(b: Seq<u8>, off: int) -> Self {
        WriteIn {
            fh: le64(b, off + 0),
            offset: le64(b, off + 8),
            size: le32(b, off + 16),
            write_flags: le32(b, off + 20),
        }
    }

    pub fn read_at(b: &[u8], off: usize) -> (r: Self)
        requires
            off + WRITE_IN_SIZE <= b.len(),
        ensures
            r == Self::spec_at(b@, off as int),
    {
        WriteIn {
            fh: read_u64(b, off + 0),
            offset: read_u64(b, off + 8),
            size: read_u32(b, off + 16),
            write_flags: read_u32(b, off + 20),
        }
    }
}

/// Size in bytes of [`ReleaseIn`].
pub const RELEASE_IN_SIZE: usize = 24;

/// Arguments of RELEASE and RELEASEDIR.
#[derive(Clone, Copy, Debug, PartialEq, Eq, Structural)]
pub struct ReleaseIn {
    pub fh: u64,
    pub flags: u32,
    pub release_flags: u32,
    pub lock_owner: u64,
}

impl ReleaseIn {
    /// The record stored at `off` in `b`.
    pub open spec fn spec_at(b: Seq<u8>, off: int) -> Self {
        ReleaseIn {
            fh: le64(b, off + 0),
            flags: le32(b, off + 8),
            release_flags: le32(b, off + 12),
            lock_owner: le64(b, off + 16),
        }
    }

    pub fn read_at(b: &[u8], off: usize) -> (r: Self)
        requires
            off + RELEASE_IN_SIZE <= b.len(),
        ensures
            r == Self::spec_at(b@, off as int),
    {
        ReleaseIn {
            fh: read_u64(b, off + 0),
            flags: read_u32(b, off + 8),
            release_flags: read_u32(b, off + 12),
            lock_owner: read_u64(b, off + 16),
        }
    }
}

/// Size in bytes of [`FsyncIn`].
pub const FSYNC_IN_SIZE: usize = 16;

/// Arguments of FSYNC and FSYNCDIR.
#[derive(Clone, Copy, Debug, PartialEq, Eq, Structural)]
pub struct FsyncIn {
    pub fh: u64,
    pub fsync_flags: u32,
    pub padding: u32,
}

impl FsyncIn {
    /// The record stored at `off` in `b`.
    pub open spec fn spec_at(b: Seq<u8>, off: int) -> Self {
        FsyncIn {
            fh: le64(b, off + 0),
            fsync_flags: le32(b, off + 8),
            padding: le32(b, off + 12),
        }
    }

    pub fn read_at(b: &[u8], off: usize) -> (r: Self)
        requires
            off + FSYNC_IN_SIZE <= b.len(),
        ensures
            r == Self::spec_at(b@, off as int),
    {
        FsyncIn {
            fh: read_u64(b, off + 0),
            fsync_flags: read_u32(b, off + 8),
            padding: read_u32(b, off + 12),
        }
    }
}

/// Size in bytes of [`SetxattrIn`].
pub const SETXATTR_IN_SIZE: usize = 8;

/// Arguments of SETXATTR; a name and `size` bytes of value follow.
#[derive(Clone, Copy, Debug, PartialEq, Eq, Structural)]
pub struct SetxattrIn {
    pub size: u32,
    pub flags: u32,
}

impl SetxattrIn {
    /// The record stored at `off` in `b`.
    pub open spec fn spec_at(b: Seq<u8>, off: int) -> Self {
        SetxattrIn {
            size: le32(b, off + 0),
            flags: le32(b, off + 4),
        }
    }

    pub fn read_at(b: &[u8], off: usize) -> (r: Self)
        requires
            off + SETXATTR_IN_SIZE <= b.len(),
        ensures
            r == Self::spec_at(b@, off as int),
    {
        SetxattrIn {
            size: read_u32(b, off + 0),
            flags: read_u32(b, off + 4),
        }
    }
}

/// Size in bytes of [`GetxattrIn`].
pub const GETXATTR_IN_SIZE: usize = 8;

/// Arguments of GETXATTR and LISTXATTR.
#[derive(Clone, Copy, Debug, PartialEq, Eq, Structural)]
pub struct GetxattrIn {
    pub size: u32,
    pub padding: u32,
}

impl GetxattrIn {
    /// The record stored at `off` in `b`.
    pub open spec fn spec_at(b: Seq<u8>, off: int) -> Self {
        GetxattrIn {
            size: le32(b, off + 0),
            padding: le32(b, off + 4),
        }
    }

    pub fn read_at(b: &[u8], off: usize) -> (r: Self)
        requires
            off + GETXATTR_IN_SIZE <= b.len(),
        ensures
            r == Self::spec_at(b@, off as int),
    {
        GetxattrIn {
            size: read_u32(b, off + 0),
            padding: read_u32(b, off + 4),
        }
    }
}

/// Size in bytes of [`FlushIn`].
pub const FLUSH_IN_SIZE: usize = 24;

/// Arguments of FLUSH.
#[derive(Clone, Copy, Debug, PartialEq, Eq, Structural)]
pub struct FlushIn {
    pub fh: u64,
    pub unused: u32,
    pub padding: u32,
    pub lock_owner: u64,
}

impl FlushIn {
    /// The record stored at `off` in `b`.
    pub open spec fn spec_at(b: Seq<u8>, off: int) -> Self {
        FlushIn {
            fh: le64(b, off + 0),
            unused: le32(b, off + 8),
            padding: le32(b, off + 12),
            lock_owner: le64(b, off + 16),
        }
    }

    pub fn read_at(b: &[u8], off: usize) -> (r: Self)
        requires
            off + FLUSH_IN_SIZE <= b.len(),
        ensures
            r == Self::spec_at(b@, off as int),
    {
        FlushIn {
            fh: read_u64(b, off + 0),
            unused: read_u32(b, off + 8),
            padding: read_u32(b, off + 12),
            lock_owner: read_u64(b, off + 16),
        }
    }
}

/// Size in bytes of [`InitIn`].
pub const INIT_IN_SIZE: usize = 16;

/// Arguments of INIT.
#[derive(Clone, Copy, Debug, PartialEq, Eq, Structural)]
pub struct InitIn {
    pub major: u32,
    pub minor: u32,
    pub max_readahead: u32,
    pub flags: u32,
}

impl InitIn {
    /// The record stored at `off` in `b`.
    pub open spec fn spec_at(b: Seq<u8>, off: int) -> Self {
        InitIn {
            major: le32(b, off + 0),
            minor: le32(b, off + 4),
            max_readahead: le32(b, off + 8),
            flags: le32(b, off + 12),
        }
    }

    pub fn read_at(b: &[u8], off: usize) -> (r: Self)
        requires
            off + INIT_IN_SIZE <= b.len(),
        ensures
            r == Self::spec_at(b@, off as int),
    {
        InitIn {
            major: read_u32(b, off + 0),
            minor: read_u32(b, off + 4),
            max_readahead: read_u32(b, off + 8),
            flags: read_u32(b, off + 12),
        }
    }
}

/// Size in bytes of [`FileLock`].
pub const FILE_LOCK_SIZE: usize = 24;

/// A byte-range lock.
#[derive(Clone, Copy, Debug, PartialEq, Eq, Structural)]
pub struct FileLock {
    pub start: u64,
    pub end: u64,
    pub typ: u32,
    pub pid: u32,
}

impl FileLock {
    /// The record stored at `off` in `b`.
    pub open spec fn spec_at(b: Seq<u8>, off: int) -> Self {
        FileLock {
            start: le64(b, off + 0),
            end: le64(b, off + 8),
            typ: le32(b, off + 16),
            pid: le32(b, off + 20),
        }
    }

    pub fn read_at(b: &[u8], off: usize) -> (r: Self)
        requires
            off + FILE_LOCK_SIZE <= b.len(),
        ensures
            r == Self::spec_at(b@, off as int),
    {
        FileLock {
            start: read_u64(b, off + 0),
            end: read_u64(b, off + 8),
            typ: read_u32(b, off + 16),
            pid: read_u32(b, off + 20),
        }
    }
}

/// Size in bytes of [`LkIn`].
pub const LK_IN_SIZE: usize = 40;

/// Arguments of GETLK, SETLK and SETLKW.
#[derive(Clone, Copy, Debug, PartialEq, Eq, Structural)]
pub struct LkIn {
    pub fh: u64,
    pub owner: u64,
    pub lk: FileLock,
}

impl LkIn {
    /// The record stored at `off` in `b`.
    pub open spec fn spec_at(b: Seq<u8>, off: int) -> Self {
        LkIn {
            fh: le64(b, off + 0),
            owner: le64(b, off + 8),
            lk: FileLock::spec_at(b, off + 16),
        }
    }

    pub fn read_at(b: &[u8], off: usize) -> (r: Self)
        requires
            off + LK_IN_SIZE <= b.len(),
        ensures
            r == Self::spec_at(b@, off as int),
    {
        LkIn {
            fh: read_u64(b, off + 0),
            owner: read_u64(b, off + 8),
            lk: FileLock::read_at(b, off + 16),
        }
    }
}

/// Size in bytes of [`AccessIn`].
pub const ACCESS_IN_SIZE: usize = 8;

/// Arguments of ACCESS.
#[derive(Clone, Copy, Debug, PartialEq, Eq, Structural)]
pub struct AccessIn {
    pub mask: u32,
    pub padding: u32,
}

impl AccessIn {
    /// The record stored at `off` in `b`.
    pub open spec fn spec_at(b: Seq<u8>, off: int) -> Self {
        AccessIn {
            mask: le32(b, off + 0),
            padding: le32(b, off + 4),
        }
    }

    pub fn read_at(b: &[u8], off: usize) -> (r: Self)
        requires
            off + ACCESS_IN_SIZE <= b.len(),
        ensures
            r == Self::spec_at(b@, off as int),
    {
        AccessIn {
            mask: read_u32(b, off + 0),
            padding: read_u32(b, off + 4),
        }
    }
}

/// Size in bytes of [`CreateIn`].
pub const CREATE_IN_SIZE: usize = 8;

/// Arguments of CREATE.
#[derive(Clone, Copy, Debug, PartialEq, Eq, Structural)]
pub struct CreateIn {
    pub flags: u32,
    pub mode: u32,
}

impl CreateIn {
    /// The record stored at `off` in `b`.
    pub open spec fn spec_at(b: Seq<u8>, off: int) -> Self {
        CreateIn {
            flags: le32(b, off + 0),
            mode: le32(b, off + 4),
        }
    }

    pub fn read_at(b: &[u8], off: usize) -> (r: Self)
        requires
            off + CREATE_IN_SIZE <= b.len(),
        ensures
            r == Self::spec_at(b@, off as int),
    {
        CreateIn {
            flags: read_u32(b, off + 0),
            mode: read_u32(b, off + 4),
        }
    }
}

/// Size in bytes of [`InterruptIn`].
pub const INTERRUPT_IN_SIZE: usize = 8;

/// Arguments of INTERRUPT.
#[derive(Clone, Copy, Debug, PartialEq, Eq, Structural)]
pub struct InterruptIn {
    pub unique: u64,
}

impl InterruptIn {
    /// The record stored at `off` in `b`.
    pub open spec fn spec_at(b: Seq<u8>, off: int) -> Self {
        InterruptIn {
            unique: le64(b, off + 0),
        }
    }

    pub fn read_at(b: &[u8], off: usize) -> (r: Self)
        requires
            off + INTERRUPT_IN_SIZE <= b.len(),
        ensures
            r == Self::spec_at(b@, off as int),
    {
        InterruptIn {
            unique: read_u64(b, off + 0),
        }
    }
}

/// Size in bytes of [`BmapIn`].
pub const BMAP_IN_SIZE: usize = 16;

/// Arguments of BMAP.
#[derive(Clone, Copy, Debug, PartialEq, Eq, Structural)]
pub struct BmapIn {
    pub block: u64,
    pub blocksize: u32,
    pub padding: u32,
}

impl BmapIn {
    /// The record stored at `off` in `b`.
    pub open spec fn spec_at(b: Seq<u8>, off: int) -> Self {
        BmapIn {
            block: le64(b, off + 0),
            blocksize: le32(b, off + 8),
            padding: le32(b, off + 12),
        }
    }

    pub fn read_at(b: &[u8], off: usize) -> (r: Self)
        requires
            off + BMAP_IN_SIZE <= b.len(),
        ensures
            r == Self::spec_at(b@, off as int),
    {
        BmapIn {
            block: read_u64(b, off + 0),
            blocksize: read_u32(b, off + 8),
            padding: read_u32(b, off + 12),
        }
    }
}

impl InHeader {
    /// The header as it stands in a packet.
    pub open spec fn spec_bytes(self) -> Seq<u8> {
        spec_u32_to_le_bytes(self.len) + spec_u32_to_le_bytes(self.opcode) + spec_u64_to_le_bytes(
            self.unique,
        ) + spec_u64_to_le_bytes(self.nodeid) + spec_u32_to_le_bytes(self.uid)
            + spec_u32_to_le_bytes(self.gid) + spec_u32_to_le_bytes(self.pid)
            + spec_u32_to_le_bytes(self.padding)
    }
}

/// Decoding a header from the start of `b` and writing it out again gives the
/// first bytes of `b` back.
pub proof fn lemma_header_bytes(b: Seq<u8>)
    requires
        b.len() >= IN_HEADER_SIZE,
    ensures
        InHeader::spec_at(b, 0).spec_bytes() == b.subrange(0, IN_HEADER_SIZE as int),
{
    lemma_auto_spec_u32_to_from_le_bytes();
    lemma_auto_spec_u64_to_from_le_bytes();
    let h = InHeader::spec_at(b, 0);
    assert(spec_u32_to_le_bytes(h.len) == b.subrange(0, 4));
    assert(spec_u32_to_le_bytes(h.opcode) == b.subrange(4, 8));
    assert(spec_u64_to_le_bytes(h.unique) == b.subrange(8, 16));
    assert(spec_u64_to_le_bytes(h.nodeid) == b.subrange(16, 24));
    assert(spec_u32_to_le_bytes(h.uid) == b.subrange(24, 28));
    assert(spec_u32_to_le_bytes(h.gid) == b.subrange(28, 32));
    assert(spec_u32_to_le_bytes(h.pid) == b.subrange(32, 36));
    assert(spec_u32_to_le_bytes(h.padding) == b.subrange(36, 40));
    assert(h.spec_bytes() =~= b.subrange(0, IN_HEADER_SIZE as int));
}

} // verus!

verus! {

/// Major version of the protocol this library speaks.
pub const FUSE_KERNEL_VERSION: u32 = 7;

/// Minor version of the protocol this library speaks.
pub const FUSE_KERNEL_MINOR_VERSION: u32 = 8;

/// Oldest minor version of major version 7 that is accepted.
pub const MIN_KERNEL_MINOR_VERSION: u32 = 6;

/// INIT flag: the kernel may send reads asynchronously.
pub const FUSE_ASYNC_READ: u32 = 1;

/// INIT flags this library accepts.
pub const INIT_FLAGS: u32 = FUSE_ASYNC_READ;

/// Largest payload of a WRITE that the session's buffer holds.
pub const MAX_WRITE_SIZE: u32 = 16777216;

/// SETATTR `valid` bits.
pub const FATTR_MODE: u32 = 1;
pub const FATTR_UID: u32 = 2;
pub const FATTR_GID: u32 = 4;
pub const FATTR_SIZE: u32 = 8;
pub const FATTR_ATIME: u32 = 16;
pub const FATTR_MTIME: u32 = 32;
pub const FATTR_FH: u32 = 64;

/// RELEASE flag: flush the file as it is released.
pub const FUSE_RELEASE_FLUSH: u32 = 1;

/// FSYNC flag: only the data, not the metadata, needs to be synced.
pub const FUSE_FSYNC_DATASYNC: u32 = 1;

/// Size in bytes of [`InitOut`].
pub const INIT_OUT_SIZE: usize = 24;

/// Payload of the reply to INIT.
#[derive(Clone, Copy, Debug, PartialEq, Eq, Structural)]
pub struct InitOut {
    pub major: u32,
    pub minor: u32,
    pub max_readahead: u32,
    pub flags: u32,
    pub unused: u32,
    pub max_write: u32,
}

impl InitOut {
    /// The record as it stands in a packet.
    pub open spec fn spec_bytes(self) -> Seq<u8> {
        spec_u32_to_le_bytes(self.major) + spec_u32_to_le_bytes(self.minor) + spec_u32_to_le_bytes(
            self.max_readahead,
        ) + spec_u32_to_le_bytes(self.flags) + spec_u32_to_le_bytes(self.unused)
            + spec_u32_to_le_bytes(self.max_write)
    }

    pub fn to_bytes(&self) -> (r: Vec<u8>)
        ensures
            r@ == self.spec_bytes(),
            r@.len() == INIT_OUT_SIZE,
    {
        proof {
            lemma_auto_spec_u32_to_from_le_bytes();
        }
        let mut out = u32_to_le_bytes(self.major);
        out.extend_from_slice(u32_to_le_bytes(self.minor).as_slice());
        out.extend_from_slice(u32_to_le_bytes(self.max_readahead).as_slice());
        out.extend_from_slice(u32_to_le_bytes(self.flags).as_slice());
        out.extend_from_slice(u32_to_le_bytes(self.unused).as_slice());
        out.extend_from_slice(u32_to_le_bytes(self.max_write).as_slice());
        out
    }
}

} // verus!
