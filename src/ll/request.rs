//! Parsing of a raw request packet into a header and a typed operation.
use crate::abi::{
    lemma_header_bytes, AccessIn, BmapIn, CreateIn, FlushIn, ForgetIn, FsyncIn, GetxattrIn,
    InHeader, InitIn, InterruptIn, LinkIn, LkIn, MkdirIn, MknodIn, OpenIn, ReadIn, ReleaseIn,
    RenameIn, SetattrIn, SetxattrIn, WriteIn, ACCESS_IN_SIZE, BMAP_IN_SIZE, CREATE_IN_SIZE,
    FLUSH_IN_SIZE, FORGET_IN_SIZE, FSYNC_IN_SIZE, GETXATTR_IN_SIZE, INIT_IN_SIZE,
    INTERRUPT_IN_SIZE, IN_HEADER_SIZE, LINK_IN_SIZE, LK_IN_SIZE, MKDIR_IN_SIZE, MKNOD_IN_SIZE,
    OPEN_IN_SIZE, READ_IN_SIZE, RELEASE_IN_SIZE, RENAME_IN_SIZE, SETATTR_IN_SIZE,
    SETXATTR_IN_SIZE, WRITE_IN_SIZE,
};
use crate::wire::{is_cstr_at, no_nul_from, ArgumentIterator};
use vstd::prelude::*;
use vstd::slice::slice_to_vec;

verus! {

/// Error that may occur while parsing a request packet.
#[derive(Clone, Copy, Debug, PartialEq, Eq, Structural)]
pub enum RequestError {
    /// Not enough data for the header (the length of the packet).
    ShortReadHeader(usize),
    /// The header names an opcode that is not supported.
    UnknownOperation(u32),
    /// The packet is shorter than its header says (its length, the declared length).
    ShortRead(usize, usize),
    /// The operation's arguments are incomplete.
    InsufficientData,
}

/// The operations the kernel may request.
#[derive(Clone, Copy, Debug, PartialEq, Eq, Structural)]
pub enum Opcode {
    Lookup,
    Forget,
    GetAttr,
    SetAttr,
    ReadLink,
    SymLink,
    MkNod,
    MkDir,
    Unlink,
    RmDir,
    Rename,
    Link,
    Open,
    Read,
    Write,
    StatFs,
    Release,
    FSync,
    SetXAttr,
    GetXAttr,
    ListXAttr,
    RemoveXAttr,
    Flush,
    Init,
    OpenDir,
    ReadDir,
    ReleaseDir,
    FSyncDir,
    GetLk,
    SetLk,
    SetLkW,
    Access,
    Create,
    Interrupt,
    BMap,
    Destroy,
}

impl Opcode {
    /// The number that stands for this operation in a packet header.
    pub open spec fn code(self) -> u32 {
        match self {
            Opcode::Lookup => 1,
            Opcode::Forget => 2,
            Opcode::GetAttr => 3,
            Opcode::SetAttr => 4,
            Opcode::ReadLink => 5,
            Opcode::SymLink => 6,
            Opcode::MkNod => 8,
            Opcode::MkDir => 9,
            Opcode::Unlink => 10,
            Opcode::RmDir => 11,
            Opcode::Rename => 12,
            Opcode::Link => 13,
            Opcode::Open => 14,
            Opcode::Read => 15,
            Opcode::Write => 16,
            Opcode::StatFs => 17,
            Opcode::Release => 18,
            Opcode::FSync => 20,
            Opcode::SetXAttr => 21,
            Opcode::GetXAttr => 22,
            Opcode::ListXAttr => 23,
            Opcode::RemoveXAttr => 24,
            Opcode::Flush => 25,
            Opcode::Init => 26,
            Opcode::OpenDir => 27,
            Opcode::ReadDir => 28,
            Opcode::ReleaseDir => 29,
            Opcode::FSyncDir => 30,
            Opcode::GetLk => 31,
            Opcode::SetLk => 32,
            Opcode::SetLkW => 33,
            Opcode::Access => 34,
            Opcode::Create => 35,
            Opcode::Interrupt => 36,
            Opcode::BMap => 37,
            Opcode::Destroy => 38,
        }
    }

    /// The operation whose number is `n`, if any.
    pub open spec fn spec_from_code(n: u32) -> Option<Opcode> {
        match n {
            1 => Some(Opcode::Lookup),
            2 => Some(Opcode::Forget),
            3 => Some(Opcode::GetAttr),
            4 => Some(Opcode::SetAttr),
            5 => Some(Opcode::ReadLink),
            6 => Some(Opcode::SymLink),
            8 => Some(Opcode::MkNod),
            9 => Some(Opcode::MkDir),
            10 => Some(Opcode::Unlink),
            11 => Some(Opcode::RmDir),
            12 => Some(Opcode::Rename),
            13 => Some(Opcode::Link),
            14 => Some(Opcode::Open),
            15 => Some(Opcode::Read),
            16 => Some(Opcode::Write),
            17 => Some(Opcode::StatFs),
            18 => Some(Opcode::Release),
            20 => Some(Opcode::FSync),
            21 => Some(Opcode::SetXAttr),
            22 => Some(Opcode::GetXAttr),
            23 => Some(Opcode::ListXAttr),
            24 => Some(Opcode::RemoveXAttr),
            25 => Some(Opcode::Flush),
            26 => Some(Opcode::Init),
            27 => Some(Opcode::OpenDir),
            28 => Some(Opcode::ReadDir),
            29 => Some(Opcode::ReleaseDir),
            30 => Some(Opcode::FSyncDir),
            31 => Some(Opcode::GetLk),
            32 => Some(Opcode::SetLk),
            33 => Some(Opcode::SetLkW),
            34 => Some(Opcode::Access),
            35 => Some(Opcode::Create),
            36 => Some(Opcode::Interrupt),
            37 => Some(Opcode::BMap),
            38 => Some(Opcode::Destroy),
            _ => None,
        }
    }

    /// The operation whose number is `n`, if any.
    pub fn from_code(n: u32) -> (r: Option<Opcode>)
        ensures
            r == Opcode::spec_from_code(n),
            match r {
                Some(o) => o.code() == n,
                None => forall|o: Opcode| #[trigger] o.code() != n,
            },
    {
        match n {
            1 => Some(Opcode::Lookup),
            2 => Some(Opcode::Forget),
            3 => Some(Opcode::GetAttr),
            4 => Some(Opcode::SetAttr),
            5 => Some(Opcode::ReadLink),
            6 => Some(Opcode::SymLink),
            8 => Some(Opcode::MkNod),
            9 => Some(Opcode::MkDir),
            10 => Some(Opcode::Unlink),
            11 => Some(Opcode::RmDir),
            12 => Some(Opcode::Rename),
            13 => Some(Opcode::Link),
            14 => Some(Opcode::Open),
            15 => Some(Opcode::Read),
            16 => Some(Opcode::Write),
            17 => Some(Opcode::StatFs),
            18 => Some(Opcode::Release),
            20 => Some(Opcode::FSync),
            21 => Some(Opcode::SetXAttr),
            22 => Some(Opcode::GetXAttr),
            23 => Some(Opcode::ListXAttr),
            24 => Some(Opcode::RemoveXAttr),
            25 => Some(Opcode::Flush),
            26 => Some(Opcode::Init),
            27 => Some(Opcode::OpenDir),
            28 => Some(Opcode::ReadDir),
            29 => Some(Opcode::ReleaseDir),
            30 => Some(Opcode::FSyncDir),
            31 => Some(Opcode::GetLk),
            32 => Some(Opcode::SetLk),
            33 => Some(Opcode::SetLkW),
            34 => Some(Opcode::Access),
            35 => Some(Opcode::Create),
            36 => Some(Opcode::Interrupt),
            37 => Some(Opcode::BMap),
            38 => Some(Opcode::Destroy),
            _ => None,
        }
    }
}

/// A filesystem operation with its arguments, as the kernel sent it. Names
/// are the bytes of a NUL-terminated string, without the NUL.
#[derive(Debug)]
#[allow(inconsistent_fields)]
pub enum Operation {
    Lookup { name: Vec<u8> },
    Forget { arg: ForgetIn },
    GetAttr,
    SetAttr { arg: SetattrIn },
    ReadLink,
    SymLink { name: Vec<u8>, link: Vec<u8> },
    MkNod { arg: MknodIn, name: Vec<u8> },
    MkDir { arg: MkdirIn, name: Vec<u8> },
    Unlink { name: Vec<u8> },
    RmDir { name: Vec<u8> },
    Rename { arg: RenameIn, name: Vec<u8>, newname: Vec<u8> },
    Link { arg: LinkIn, name: Vec<u8> },
    Open { arg: OpenIn },
    Read { arg: ReadIn },
    Write { arg: WriteIn, data: Vec<u8> },
    StatFs,
    Release { arg: ReleaseIn },
    FSync { arg: FsyncIn },
    SetXAttr { arg: SetxattrIn, name: Vec<u8>, value: Vec<u8> },
    GetXAttr { arg: GetxattrIn, name: Vec<u8> },
    ListXAttr { arg: GetxattrIn },
    RemoveXAttr { name: Vec<u8> },
    Flush { arg: FlushIn },
    Init { arg: InitIn },
    OpenDir { arg: OpenIn },
    ReadDir { arg: ReadIn },
    ReleaseDir { arg: ReleaseIn },
    FSyncDir { arg: FsyncIn },
    GetLk { arg: LkIn },
    SetLk { arg: LkIn },
    SetLkW { arg: LkIn },
    Access { arg: AccessIn },
    Create { arg: CreateIn, name: Vec<u8> },
    Interrupt { arg: InterruptIn },
    BMap { arg: BmapIn },
    Destroy,
}

/// `op` is what a request with opcode `opc` carries when its arguments start
/// at `p` in `b`.
pub open spec fn parsed_as(op: Operation, opc: Opcode, b: Seq<u8>, p: int) -> bool {
    match opc {
        Opcode::Lookup => {
            &&& op matches Operation::Lookup { name }
            &&& is_cstr_at(b, p, name@)
        },
        Opcode::Forget => {
            &&& op matches Operation::Forget { arg }
            &&& p + FORGET_IN_SIZE <= b.len()
            &&& arg == ForgetIn::spec_at(b, p)
        },
        Opcode::GetAttr => op is GetAttr,
        Opcode::SetAttr => {
            &&& op matches Operation::SetAttr { arg }
            &&& p + SETATTR_IN_SIZE <= b.len()
            &&& arg == SetattrIn::spec_at(b, p)
        },
        Opcode::ReadLink => op is ReadLink,
        Opcode::SymLink => {
            &&& op matches Operation::SymLink { name, link }
            &&& is_cstr_at(b, p, name@)
            &&& is_cstr_at(b, p + name@.len() + 1, link@)
        },
        Opcode::MkNod => {
            &&& op matches Operation::MkNod { arg, name }
            &&& p + MKNOD_IN_SIZE <= b.len()
            &&& arg == MknodIn::spec_at(b, p)
            &&& is_cstr_at(b, p + MKNOD_IN_SIZE, name@)
        },
        Opcode::MkDir => {
            &&& op matches Operation::MkDir { arg, name }
            &&& p + MKDIR_IN_SIZE <= b.len()
            &&& arg == MkdirIn::spec_at(b, p)
            &&& is_cstr_at(b, p + MKDIR_IN_SIZE, name@)
        },
        Opcode::Unlink => {
            &&& op matches Operation::Unlink { name }
            &&& is_cstr_at(b, p, name@)
        },
        Opcode::RmDir => {
            &&& op matches Operation::RmDir { name }
            &&& is_cstr_at(b, p, name@)
        },
        Opcode::Rename => {
            &&& op matches Operation::Rename { arg, name, newname }
            &&& p + RENAME_IN_SIZE <= b.len()
            &&& arg == RenameIn::spec_at(b, p)
            &&& is_cstr_at(b, p + RENAME_IN_SIZE, name@)
            &&& is_cstr_at(b, p + RENAME_IN_SIZE + name@.len() + 1, newname@)
        },
        Opcode::Link => {
            &&& op matches Operation::Link { arg, name }
            &&& p + LINK_IN_SIZE <= b.len()
            &&& arg == LinkIn::spec_at(b, p)
            &&& is_cstr_at(b, p + LINK_IN_SIZE, name@)
        },
        Opcode::Open => {
            &&& op matches Operation::Open { arg }
            &&& p + OPEN_IN_SIZE <= b.len()
            &&& arg == OpenIn::spec_at(b, p)
        },
        Opcode::Read => {
            &&& op matches Operation::Read { arg }
            &&& p + READ_IN_SIZE <= b.len()
            &&& arg == ReadIn::spec_at(b, p)
        },
        Opcode::Write => {
            &&& op matches Operation::Write { arg, data }
            &&& p + WRITE_IN_SIZE + arg.size <= b.len()
            &&& arg == WriteIn::spec_at(b, p)
            &&& data@ == b.subrange(p + WRITE_IN_SIZE, p + WRITE_IN_SIZE + arg.size)
        },
        Opcode::StatFs => op is StatFs,
        Opcode::Release => {
            &&& op matches Operation::Release { arg }
            &&& p + RELEASE_IN_SIZE <= b.len()
            &&& arg == ReleaseIn::spec_at(b, p)
        },
        Opcode::FSync => {
            &&& op matches Operation::FSync { arg }
            &&& p + FSYNC_IN_SIZE <= b.len()
            &&& arg == FsyncIn::spec_at(b, p)
        },
        Opcode::SetXAttr => {
            &&& op matches Operation::SetXAttr { arg, name, value }
            &&& p + SETXATTR_IN_SIZE <= b.len()
            &&& arg == SetxattrIn::spec_at(b, p)
            &&& is_cstr_at(b, p + SETXATTR_IN_SIZE, name@)
            &&& p + SETXATTR_IN_SIZE + name@.len() + 1 + arg.size <= b.len()
            &&& value@ == b.subrange(p + SETXATTR_IN_SIZE + name@.len() + 1, p + SETXATTR_IN_SIZE + name@.len() + 1 + arg.size)
        },
        Opcode::GetXAttr => {
            &&& op matches Operation::GetXAttr { arg, name }
            &&& p + GETXATTR_IN_SIZE <= b.len()
            &&& arg == GetxattrIn::spec_at(b, p)
            &&& is_cstr_at(b, p + GETXATTR_IN_SIZE, name@)
        },
        Opcode::ListXAttr => {
            &&& op matches Operation::ListXAttr { arg }
            &&& p + GETXATTR_IN_SIZE <= b.len()
            &&& arg == GetxattrIn::spec_at(b, p)
        },
        Opcode::RemoveXAttr => {
            &&& op matches Operation::RemoveXAttr { name }
            &&& is_cstr_at(b, p, name@)
        },
        Opcode::Flush => {
            &&& op matches Operation::Flush { arg }
            &&& p + FLUSH_IN_SIZE <= b.len()
            &&& arg == FlushIn::spec_at(b, p)
        },
        Opcode::Init => {
            &&& op matches Operation::Init { arg }
            &&& p + INIT_IN_SIZE <= b.len()
            &&& arg == InitIn::spec_at(b, p)
        },
        Opcode::OpenDir => {
            &&& op matches Operation::OpenDir { arg }
            &&& p + OPEN_IN_SIZE <= b.len()
            &&& arg == OpenIn::spec_at(b, p)
        },
        Opcode::ReadDir => {
            &&& op matches Operation::ReadDir { arg }
            &&& p + READ_IN_SIZE <= b.len()
            &&& arg == ReadIn::spec_at(b, p)
        },
        Opcode::ReleaseDir => {
            &&& op matches Operation::ReleaseDir { arg }
            &&& p + RELEASE_IN_SIZE <= b.len()
            &&& arg == ReleaseIn::spec_at(b, p)
        },
        Opcode::FSyncDir => {
            &&& op matches Operation::FSyncDir { arg }
            &&& p + FSYNC_IN_SIZE <= b.len()
            &&& arg == FsyncIn::spec_at(b, p)
        },
        Opcode::GetLk => {
            &&& op matches Operation::GetLk { arg }
            &&& p + LK_IN_SIZE <= b.len()
            &&& arg == LkIn::spec_at(b, p)
        },
        Opcode::SetLk => {
            &&& op matches Operation::SetLk { arg }
            &&& p + LK_IN_SIZE <= b.len()
            &&& arg == LkIn::spec_at(b, p)
        },
        Opcode::SetLkW => {
            &&& op matches Operation::SetLkW { arg }
            &&& p + LK_IN_SIZE <= b.len()
            &&& arg == LkIn::spec_at(b, p)
        },
        Opcode::Access => {
            &&& op matches Operation::Access { arg }
            &&& p + ACCESS_IN_SIZE <= b.len()
            &&& arg == AccessIn::spec_at(b, p)
        },
        Opcode::Create => {
            &&& op matches Operation::Create { arg, name }
            &&& p + CREATE_IN_SIZE <= b.len()
            &&& arg == CreateIn::spec_at(b, p)
            &&& is_cstr_at(b, p + CREATE_IN_SIZE, name@)
        },
        Opcode::Interrupt => {
            &&& op matches Operation::Interrupt { arg }
            &&& p + INTERRUPT_IN_SIZE <= b.len()
            &&& arg == InterruptIn::spec_at(b, p)
        },
        Opcode::BMap => {
            &&& op matches Operation::BMap { arg }
            &&& p + BMAP_IN_SIZE <= b.len()
            &&& arg == BmapIn::spec_at(b, p)
        },
        Opcode::Destroy => op is Destroy,
    }
}

/// How many bytes of arguments the parser reads for `op`: its fixed record,
/// each name with its NUL, and the data bytes that follow.
pub open spec fn consumed(op: Operation) -> int {
    match op {
        Operation::Lookup { name } => (name@.len() + 1) as int,
        Operation::Forget { .. } => FORGET_IN_SIZE as int,
        Operation::GetAttr => 0,
        Operation::SetAttr { .. } => SETATTR_IN_SIZE as int,
        Operation::ReadLink => 0,
        Operation::SymLink { name, link } => (name@.len() + 1 + link@.len() + 1) as int,
        Operation::MkNod { name, .. } => (MKNOD_IN_SIZE + name@.len() + 1) as int,
        Operation::MkDir { name, .. } => (MKDIR_IN_SIZE + name@.len() + 1) as int,
        Operation::Unlink { name } => (name@.len() + 1) as int,
        Operation::RmDir { name } => (name@.len() + 1) as int,
        Operation::Rename { name, newname, .. } => (RENAME_IN_SIZE + name@.len() + 1 + newname@.len() + 1) as int,
        Operation::Link { name, .. } => (LINK_IN_SIZE + name@.len() + 1) as int,
        Operation::Open { .. } => OPEN_IN_SIZE as int,
        Operation::Read { .. } => READ_IN_SIZE as int,
        Operation::Write { arg, .. } => (WRITE_IN_SIZE + arg.size) as int,
        Operation::StatFs => 0,
        Operation::Release { .. } => RELEASE_IN_SIZE as int,
        Operation::FSync { .. } => FSYNC_IN_SIZE as int,
        Operation::SetXAttr { arg, name, .. } => (SETXATTR_IN_SIZE + name@.len() + 1 + arg.size) as int,
        Operation::GetXAttr { name, .. } => (GETXATTR_IN_SIZE + name@.len() + 1) as int,
        Operation::ListXAttr { .. } => GETXATTR_IN_SIZE as int,
        Operation::RemoveXAttr { name } => (name@.len() + 1) as int,
        Operation::Flush { .. } => FLUSH_IN_SIZE as int,
        Operation::Init { .. } => INIT_IN_SIZE as int,
        Operation::OpenDir { .. } => OPEN_IN_SIZE as int,
        Operation::ReadDir { .. } => READ_IN_SIZE as int,
        Operation::ReleaseDir { .. } => RELEASE_IN_SIZE as int,
        Operation::FSyncDir { .. } => FSYNC_IN_SIZE as int,
        Operation::GetLk { .. } => LK_IN_SIZE as int,
        Operation::SetLk { .. } => LK_IN_SIZE as int,
        Operation::SetLkW { .. } => LK_IN_SIZE as int,
        Operation::Access { .. } => ACCESS_IN_SIZE as int,
        Operation::Create { name, .. } => (CREATE_IN_SIZE + name@.len() + 1) as int,
        Operation::Interrupt { .. } => INTERRUPT_IN_SIZE as int,
        Operation::BMap { .. } => BMAP_IN_SIZE as int,
        Operation::Destroy => 0,
    }
}

/// At most one string is NUL-terminated at a given place.
proof fn lemma_cstr_unique(b: Seq<u8>, p: int, s1: Seq<u8>, s2: Seq<u8>)
    requires
        is_cstr_at(b, p, s1),
        is_cstr_at(b, p, s2),
    ensures
        s1 == s2,
{
    if s1.len() < s2.len() {
        assert(s2[s1.len() as int] == b[p + s1.len()]);
    } else if s2.len() < s1.len() {
        assert(s1[s2.len() as int] == b[p + s2.len()]);
    }
}

/// Without a zero byte no string is NUL-terminated.
proof fn lemma_no_cstr(b: Seq<u8>, p: int, s: Seq<u8>)
    requires
        no_nul_from(b, p),
    ensures
        !is_cstr_at(b, p, s),
{
    if is_cstr_at(b, p, s) {
        assert(b[p + s.len()] == 0);
    }
}

impl Operation {
    /// Reads the arguments of an `opc` request from `data`; `None` where they
    /// are incomplete.
    pub(crate) fn parse(opc: Opcode, data: &mut ArgumentIterator) -> (r: Option<Operation>)
        requires
            old(data).wf(),
        ensures
            final(data).wf(),
            final(data).data@ == old(data).data@,
            old(data).pos <= final(data).pos,
            match r {
                Some(op) => {
                    &&& parsed_as(op, opc, old(data).data@, old(data).pos as int)
                    &&& final(data).pos == old(data).pos + consumed(op)
                },
                None => forall|op: Operation| !#[trigger] parsed_as(op, opc, old(data).data@, old(data).pos as int),
            },
    {
        let ghost b = data.data@;
        let ghost p = data.pos as int;
        match opc {
            Opcode::Lookup => match data.fetch_str() {
                    Some(s) => Some(Operation::Lookup { name: slice_to_vec(s) }),
                    None => {
                        proof {
                            assert forall|op: Operation| !#[trigger] parsed_as(op, opc, b, p) by {
                                if let Operation::Lookup { name, .. } = op {
                                    lemma_no_cstr(b, p, name@);
                                }
                            }
                        }
                        None
                    }
                },
            Opcode::Forget => match data.fetch(FORGET_IN_SIZE) {
                    Some(at) => Some(Operation::Forget { arg: ForgetIn::read_at(data.data, at) }),
                    None => None,
                },
            Opcode::GetAttr => Some(Operation::GetAttr),
            Opcode::SetAttr => match data.fetch(SETATTR_IN_SIZE) {
                    Some(at) => Some(Operation::SetAttr { arg: SetattrIn::read_at(data.data, at) }),
                    None => None,
                },
            Opcode::ReadLink => Some(Operation::ReadLink),
            Opcode::SymLink => match data.fetch_str() {
                    Some(s1) => match data.fetch_str() {
                        Some(s2) => Some(Operation::SymLink {
                            name: slice_to_vec(s1),
                            link: slice_to_vec(s2),
                        }),
                        None => {
                            proof {
                                assert forall|op: Operation| !#[trigger] parsed_as(op, opc, b, p) by {
                                    if let Operation::SymLink { name, link } = op {
                                        if is_cstr_at(b, p, name@) {
                                            lemma_cstr_unique(b, p, name@, s1@);
                                            lemma_no_cstr(b, p + s1@.len() + 1, link@);
                                        }
                                    }
                                }
                            }
                            None
                        }
                    },
                    None => {
                        proof {
                            assert forall|op: Operation| !#[trigger] parsed_as(op, opc, b, p) by {
                                if let Operation::SymLink { name, .. } = op {
                                    lemma_no_cstr(b, p, name@);
                                }
                            }
                        }
                        None
                    }
                },
            Opcode::MkNod => match data.fetch(MKNOD_IN_SIZE) {
                    Some(at) => match data.fetch_str() {
                        Some(s) => Some(Operation::MkNod {
                            arg: MknodIn::read_at(data.data,
                            at),
                            name: slice_to_vec(s),
                        }),
                        None => {
                            proof {
                            assert forall|op: Operation| !#[trigger] parsed_as(op, opc, b, p) by {
                                if let Operation::MkNod { name, .. } = op {
                                    lemma_no_cstr(b, p + MKNOD_IN_SIZE, name@);
                                }
                            }
                        }
                            None
                        }
                    },
                    None => None,
                },
            Opcode::MkDir => match data.fetch(MKDIR_IN_SIZE) {
                    Some(at) => match data.fetch_str() {
                        Some(s) => Some(Operation::MkDir {
                            arg: MkdirIn::read_at(data.data,
                            at),
                            name: slice_to_vec(s),
                        }),
                        None => {
                            proof {
                            assert forall|op: Operation| !#[trigger] parsed_as(op, opc, b, p) by {
                                if let Operation::MkDir { name, .. } = op {
                                    lemma_no_cstr(b, p + MKDIR_IN_SIZE, name@);
                                }
                            }
                        }
                            None
                        }
                    },
                    None => None,
                },
            Opcode::Unlink => match data.fetch_str() {
                    Some(s) => Some(Operation::Unlink { name: slice_to_vec(s) }),
                    None => {
                        proof {
                            assert forall|op: Operation| !#[trigger] parsed_as(op, opc, b, p) by {
                                if let Operation::Unlink { name, .. } = op {
                                    lemma_no_cstr(b, p, name@);
                                }
                            }
                        }
                        None
                    }
                },
            Opcode::RmDir => match data.fetch_str() {
                    Some(s) => Some(Operation::RmDir { name: slice_to_vec(s) }),
                    None => {
                        proof {
                            assert forall|op: Operation| !#[trigger] parsed_as(op, opc, b, p) by {
                                if let Operation::RmDir { name, .. } = op {
                                    lemma_no_cstr(b, p, name@);
                                }
                            }
                        }
                        None
                    }
                },
            Opcode::Rename => match data.fetch(RENAME_IN_SIZE) {
                    Some(at) => match data.fetch_str() {
                        Some(s1) => match data.fetch_str() {
                            Some(s2) => Some(Operation::Rename {
                                arg: RenameIn::read_at(data.data,
                                at),
                                name: slice_to_vec(s1),
                                newname: slice_to_vec(s2),
                            }),
                            None => {
                                proof {
                                    assert forall|op: Operation| !#[trigger] parsed_as(op, opc, b, p) by {
                                        if let Operation::Rename { name, newname, .. } = op {
                                            if is_cstr_at(b, p + RENAME_IN_SIZE, name@) {
                                                lemma_cstr_unique(b, p + RENAME_IN_SIZE, name@, s1@);
                                                lemma_no_cstr(b, p + RENAME_IN_SIZE + s1@.len() + 1, newname@);
                                            }
                                        }
                                    }
                                }
                                None
                            }
                        },
                        None => {
                            proof {
                            assert forall|op: Operation| !#[trigger] parsed_as(op, opc, b, p) by {
                                if let Operation::Rename { name, .. } = op {
                                    lemma_no_cstr(b, p + RENAME_IN_SIZE, name@);
                                }
                            }
                        }
                            None
                        }
                    },
                    None => None,
                },
            Opcode::Link => match data.fetch(LINK_IN_SIZE) {
                    Some(at) => match data.fetch_str() {
                        Some(s) => Some(Operation::Link {
                            arg: LinkIn::read_at(data.data,
                            at),
                            name: slice_to_vec(s),
                        }),
                        None => {
                            proof {
                            assert forall|op: Operation| !#[trigger] parsed_as(op, opc, b, p) by {
                                if let Operation::Link { name, .. } = op {
                                    lemma_no_cstr(b, p + LINK_IN_SIZE, name@);
                                }
                            }
                        }
                            None
                        }
                    },
                    None => None,
                },
            Opcode::Open => match data.fetch(OPEN_IN_SIZE) {
                    Some(at) => Some(Operation::Open { arg: OpenIn::read_at(data.data, at) }),
                    None => None,
                },
            Opcode::Read => match data.fetch(READ_IN_SIZE) {
                    Some(at) => Some(Operation::Read { arg: ReadIn::read_at(data.data, at) }),
                    None => None,
                },
            Opcode::Write => match data.fetch(WRITE_IN_SIZE) {
                    Some(at) => {
                        let arg = WriteIn::read_at(data.data, at);
                        match data.fetch_bytes(arg.size as usize) {
                            Some(d) => Some(Operation::Write { arg, data: slice_to_vec(d) }),
                            None => None,
                        }
                    }
                    None => None,
                },
            Opcode::StatFs => Some(Operation::StatFs),
            Opcode::Release => match data.fetch(RELEASE_IN_SIZE) {
                    Some(at) => Some(Operation::Release { arg: ReleaseIn::read_at(data.data, at) }),
                    None => None,
                },
            Opcode::FSync => match data.fetch(FSYNC_IN_SIZE) {
                    Some(at) => Some(Operation::FSync { arg: FsyncIn::read_at(data.data, at) }),
                    None => None,
                },
            Opcode::SetXAttr => match data.fetch(SETXATTR_IN_SIZE) {
                    Some(at) => {
                        let arg = SetxattrIn::read_at(data.data, at);
                        match data.fetch_str() {
                            Some(s) => match data.fetch_bytes(arg.size as usize) {
                                Some(d) => Some(Operation::SetXAttr {
                                    arg,
                                    name: slice_to_vec(s),
                                    value: slice_to_vec(d),
                                }),
                                None => {
                                    proof {
                                        assert forall|op: Operation| !#[trigger] parsed_as(op, opc, b, p) by {
                                            if let Operation::SetXAttr { name, .. } = op {
                                                if is_cstr_at(b, p + SETXATTR_IN_SIZE, name@) {
                                                    lemma_cstr_unique(b, p + SETXATTR_IN_SIZE, name@, s@);
                                                }
                                            }
                                        }
                                    }
                                    None
                                }
                            },
                            None => {
                                proof {
                            assert forall|op: Operation| !#[trigger] parsed_as(op, opc, b, p) by {
                                if let Operation::SetXAttr { name, .. } = op {
                                    lemma_no_cstr(b, p + SETXATTR_IN_SIZE, name@);
                                }
                            }
                        }
                                None
                            }
                        }
                    }
                    None => None,
                },
            Opcode::GetXAttr => match data.fetch(GETXATTR_IN_SIZE) {
                    Some(at) => match data.fetch_str() {
                        Some(s) => Some(Operation::GetXAttr {
                            arg: GetxattrIn::read_at(data.data,
                            at),
                            name: slice_to_vec(s),
                        }),
                        None => {
                            proof {
                            assert forall|op: Operation| !#[trigger] parsed_as(op, opc, b, p) by {
                                if let Operation::GetXAttr { name, .. } = op {
                                    lemma_no_cstr(b, p + GETXATTR_IN_SIZE, name@);
                                }
                            }
                        }
                            None
                        }
                    },
                    None => None,
                },
            Opcode::ListXAttr => match data.fetch(GETXATTR_IN_SIZE) {
                    Some(at) => Some(Operation::ListXAttr {
                        arg: GetxattrIn::read_at(data.data,
                        at),
                    }),
                    None => None,
                },
            Opcode::RemoveXAttr => match data.fetch_str() {
                    Some(s) => Some(Operation::RemoveXAttr { name: slice_to_vec(s) }),
                    None => {
                        proof {
                            assert forall|op: Operation| !#[trigger] parsed_as(op, opc, b, p) by {
                                if let Operation::RemoveXAttr { name, .. } = op {
                                    lemma_no_cstr(b, p, name@);
                                }
                            }
                        }
                        None
                    }
                },
            Opcode::Flush => match data.fetch(FLUSH_IN_SIZE) {
                    Some(at) => Some(Operation::Flush { arg: FlushIn::read_at(data.data, at) }),
                    None => None,
                },
            Opcode::Init => match data.fetch(INIT_IN_SIZE) {
                    Some(at) => Some(Operation::Init { arg: InitIn::read_at(data.data, at) }),
                    None => None,
                },
            Opcode::OpenDir => match data.fetch(OPEN_IN_SIZE) {
                    Some(at) => Some(Operation::OpenDir { arg: OpenIn::read_at(data.data, at) }),
                    None => None,
                },
            Opcode::ReadDir => match data.fetch(READ_IN_SIZE) {
                    Some(at) => Some(Operation::ReadDir { arg: ReadIn::read_at(data.data, at) }),
                    None => None,
                },
            Opcode::ReleaseDir => match data.fetch(RELEASE_IN_SIZE) {
                    Some(at) => Some(Operation::ReleaseDir {
                        arg: ReleaseIn::read_at(data.data,
                        at),
                    }),
                    None => None,
                },
            Opcode::FSyncDir => match data.fetch(FSYNC_IN_SIZE) {
                    Some(at) => Some(Operation::FSyncDir { arg: FsyncIn::read_at(data.data, at) }),
                    None => None,
                },
            Opcode::GetLk => match data.fetch(LK_IN_SIZE) {
                    Some(at) => Some(Operation::GetLk { arg: LkIn::read_at(data.data, at) }),
                    None => None,
                },
            Opcode::SetLk => match data.fetch(LK_IN_SIZE) {
                    Some(at) => Some(Operation::SetLk { arg: LkIn::read_at(data.data, at) }),
                    None => None,
                },
            Opcode::SetLkW => match data.fetch(LK_IN_SIZE) {
                    Some(at) => Some(Operation::SetLkW { arg: LkIn::read_at(data.data, at) }),
                    None => None,
                },
            Opcode::Access => match data.fetch(ACCESS_IN_SIZE) {
                    Some(at) => Some(Operation::Access { arg: AccessIn::read_at(data.data, at) }),
                    None => None,
                },
            Opcode::Create => match data.fetch(CREATE_IN_SIZE) {
                    Some(at) => match data.fetch_str() {
                        Some(s) => Some(Operation::Create {
                            arg: CreateIn::read_at(data.data,
                            at),
                            name: slice_to_vec(s),
                        }),
                        None => {
                            proof {
                            assert forall|op: Operation| !#[trigger] parsed_as(op, opc, b, p) by {
                                if let Operation::Create { name, .. } = op {
                                    lemma_no_cstr(b, p + CREATE_IN_SIZE, name@);
                                }
                            }
                        }
                            None
                        }
                    },
                    None => None,
                },
            Opcode::Interrupt => match data.fetch(INTERRUPT_IN_SIZE) {
                    Some(at) => Some(Operation::Interrupt {
                        arg: InterruptIn::read_at(data.data,
                        at),
                    }),
                    None => None,
                },
            Opcode::BMap => match data.fetch(BMAP_IN_SIZE) {
                    Some(at) => Some(Operation::BMap { arg: BmapIn::read_at(data.data, at) }),
                    None => None,
                },
            Opcode::Destroy => Some(Operation::Destroy),
        }
    }
}


/// A request packet, parsed: its header and the operation it asks for.
#[derive(Debug)]
pub struct Request {
    pub header: InHeader,
    pub operation: Operation,
}

/// `r` is what parsing the packet `b` gives.
pub open spec fn parse_outcome(b: Seq<u8>, r: Result<Request, RequestError>) -> bool {
    if b.len() < IN_HEADER_SIZE {
        r == Err::<Request, RequestError>(RequestError::ShortReadHeader(b.len() as usize))
    } else {
        let h = InHeader::spec_at(b, 0);
        match Opcode::spec_from_code(h.opcode) {
            None => r == Err::<Request, RequestError>(RequestError::UnknownOperation(h.opcode)),
            Some(opc) => if b.len() < h.len {
                r == Err::<Request, RequestError>(
                    RequestError::ShortRead(b.len() as usize, h.len as usize),
                )
            } else if exists|op: Operation| parsed_as(op, opc, b, IN_HEADER_SIZE as int) {
                &&& r is Ok
                &&& r->Ok_0.header == h
                &&& parsed_as(r->Ok_0.operation, opc, b, IN_HEADER_SIZE as int)
            } else {
                r == Err::<Request, RequestError>(RequestError::InsufficientData)
            },
        }
    }
}

impl Request {
    /// Every data buffer holds as many bytes as its arguments say.
    pub open spec fn wf(&self) -> bool {
        match self.operation {
            Operation::Write { arg, data } => data@.len() == arg.size,
            Operation::SetXAttr { arg, value, .. } => value@.len() == arg.size,
            _ => true,
        }
    }

    /// Parses a raw packet as the kernel sends it: a header, then the
    /// arguments of its operation.
    pub fn parse(data: &[u8]) -> (r: Result<Request, RequestError>)
        ensures
            parse_outcome(data@, r),
    {
        let data_len = data.len();
        let mut it = ArgumentIterator::new(data);
        let at = match it.fetch(IN_HEADER_SIZE) {
            Some(at) => at,
            None => return Err(RequestError::ShortReadHeader(data_len)),
        };
        let header = InHeader::read_at(data, at);
        let opc = match Opcode::from_code(header.opcode) {
            Some(opc) => opc,
            None => return Err(RequestError::UnknownOperation(header.opcode)),
        };
        if data_len < header.len as usize {
            return Err(RequestError::ShortRead(data_len, header.len as usize));
        }
        match Operation::parse(opc, &mut it) {
            Some(operation) => Ok(Request { header, operation }),
            None => Err(RequestError::InsufficientData),
        }
    }

    /// The header of this request.
    pub fn header(&self) -> (r: &InHeader)
        ensures
            *r == self.header,
    {
        &self.header
    }

    /// The id the kernel gave this request; replies carry it back. It may be
    /// reused once the request is complete.
    pub fn unique(&self) -> (r: u64)
        ensures
            r == self.header.unique,
    {
        self.header.unique
    }

    /// The node the request is about.
    pub fn nodeid(&self) -> (r: u64)
        ensures
            r == self.header.nodeid,
    {
        self.header.nodeid
    }

    /// The user id of the process that caused the request.
    pub fn uid(&self) -> (r: u32)
        ensures
            r == self.header.uid,
    {
        self.header.uid
    }

    /// The group id of the process that caused the request.
    pub fn gid(&self) -> (r: u32)
        ensures
            r == self.header.gid,
    {
        self.header.gid
    }

    /// The process id of the process that caused the request.
    pub fn pid(&self) -> (r: u32)
        ensures
            r == self.header.pid,
    {
        self.header.pid
    }

    /// The operation, with its arguments.
    pub fn operation(&self) -> (r: &Operation)
        ensures
            *r == self.operation,
    {
        &self.operation
    }
}

impl<'a> TryFrom<&'a [u8]> for Request {
    type Error = RequestError;

    /// Same as [`Request::parse`].
    fn try_from(data: &'a [u8]) -> (r: Result<Request, RequestError>)
        ensures
            parse_outcome(data@, r),
    {
        Request::parse(data)
    }
}

impl<'a> vstd::std_specs::convert::TryFromSpecImpl<&'a [u8]> for Request {
    /// The trait's own specification is not used: `try_from` states its
    /// result with [`parse_outcome`].
    open spec fn obeys_try_from_spec() -> bool {
        false
    }

    open spec fn try_from_spec(data: &'a [u8]) -> Result<Request, RequestError> {
        choose|r: Result<Request, RequestError>| parse_outcome(data@, r)
    }
}

/// A request the parser gives holds, for WRITE and SETXATTR, exactly as
/// many data bytes as its arguments say.
pub proof fn lemma_parsed_wf(b: Seq<u8>, r: Result<Request, RequestError>)
    requires
        parse_outcome(b, r),
        r is Ok,
    ensures
        r->Ok_0.wf(),
{
}

/// A packet shorter than a header is refused with its length.
pub proof fn lemma_parse_short_header(b: Seq<u8>, r: Result<Request, RequestError>)
    requires
        b.len() < IN_HEADER_SIZE,
        parse_outcome(b, r),
    ensures
        r == Err::<Request, RequestError>(RequestError::ShortReadHeader(b.len() as usize)),
{
}

/// A packet with a whole header naming a known operation, but shorter than the
/// length that header declares, is refused with both lengths.
pub proof fn lemma_parse_short_body(b: Seq<u8>, r: Result<Request, RequestError>)
    requires
        b.len() >= IN_HEADER_SIZE,
        Opcode::spec_from_code(InHeader::spec_at(b, 0).opcode) is Some,
        b.len() < InHeader::spec_at(b, 0).len,
        parse_outcome(b, r),
    ensures
        r == Err::<Request, RequestError>(
            RequestError::ShortRead(b.len() as usize, InHeader::spec_at(b, 0).len as usize),
        ),
{
}

/// The header of a parsed request is, byte for byte, the start of its packet.
pub proof fn lemma_parse_keeps_header(b: Seq<u8>, r: Result<Request, RequestError>)
    requires
        parse_outcome(b, r),
        r is Ok,
    ensures
        r->Ok_0.header.spec_bytes() == b.subrange(0, IN_HEADER_SIZE as int),
{
    lemma_header_bytes(b);
}

} // verus!
