//! Dispatch of parsed requests: the protocol's state machine, and the
//! mapping of each operation onto the call the filesystem receives.
use crate::abi::{
    InHeader, InitIn, InitOut, FATTR_ATIME, FATTR_FH, FATTR_GID, FATTR_MODE, FATTR_MTIME,
    FATTR_SIZE, FATTR_UID, FUSE_FSYNC_DATASYNC, FUSE_KERNEL_MINOR_VERSION, FUSE_KERNEL_VERSION,
    FUSE_RELEASE_FLUSH, INIT_FLAGS, MAX_WRITE_SIZE, MIN_KERNEL_MINOR_VERSION,
};
use crate::ll;
use crate::ll::request::parse_outcome;
use crate::ll::Operation;
use crate::reply::{lemma_reply_round_trip, reply_bytes, reply_fields, Reply, EIO, ENOSYS, EPROTO};
use crate::session::{monotone, Session};
use vstd::prelude::*;

verus! {

/// A call of the filesystem, with the arguments it takes. Times are seconds
/// and nanoseconds since the Unix epoch; an absent value is one the kernel did
/// not ask to set.
#[derive(Debug)]
#[allow(inconsistent_fields)]
pub enum Call {
    Lookup { parent: u64, name: Vec<u8> },
    /// No reply is expected.
    Forget { ino: u64, nlookup: u64 },
    GetAttr { ino: u64 },
    SetAttr {
        ino: u64,
        mode: Option<u32>,
        uid: Option<u32>,
        gid: Option<u32>,
        size: Option<u64>,
        atime: Option<(u64, u32)>,
        mtime: Option<(u64, u32)>,
        fh: Option<u64>,
    },
    ReadLink { ino: u64 },
    MkNod { parent: u64, name: Vec<u8>, mode: u32, rdev: u32 },
    MkDir { parent: u64, name: Vec<u8>, mode: u32 },
    Unlink { parent: u64, name: Vec<u8> },
    RmDir { parent: u64, name: Vec<u8> },
    SymLink { parent: u64, name: Vec<u8>, link: Vec<u8> },
    Rename { parent: u64, name: Vec<u8>, newparent: u64, newname: Vec<u8> },
    Link { ino: u64, newparent: u64, newname: Vec<u8> },
    Open { ino: u64, flags: u32 },
    Read { ino: u64, fh: u64, offset: i64, size: u32 },
    Write { ino: u64, fh: u64, offset: i64, data: Vec<u8>, flags: u32 },
    Flush { ino: u64, fh: u64, lock_owner: u64 },
    Release { ino: u64, fh: u64, flags: u32, lock_owner: u64, flush: bool },
    FSync { ino: u64, fh: u64, datasync: bool },
    OpenDir { ino: u64, flags: u32 },
    ReadDir { ino: u64, fh: u64, offset: i64, size: u32 },
    ReleaseDir { ino: u64, fh: u64, flags: u32 },
    FSyncDir { ino: u64, fh: u64, datasync: bool },
    StatFs { ino: u64 },
    SetXAttr { ino: u64, name: Vec<u8>, value: Vec<u8>, flags: u32, position: u32 },
    GetXAttr { ino: u64, name: Vec<u8>, size: u32 },
    ListXAttr { ino: u64, size: u32 },
    RemoveXAttr { ino: u64, name: Vec<u8> },
    Access { ino: u64, mask: u32 },
    Create { parent: u64, name: Vec<u8>, mode: u32, flags: u32 },
    GetLk { ino: u64, fh: u64, lock_owner: u64, start: u64, end: u64, typ: u32, pid: u32 },
    /// `sleep` is true for SETLKW, which waits for the lock.
    SetLk { ino: u64, fh: u64, lock_owner: u64, start: u64, end: u64, typ: u32, pid: u32, sleep: bool },
    BMap { ino: u64, blocksize: u32, idx: u64 },
}

/// The call that forwards operation `op` of a request with header `h`;
/// `None` for INIT, DESTROY and INTERRUPT, which the session handles itself.
pub open spec fn call_for(h: InHeader, op: Operation) -> Option<Call> {
    match op {
        Operation::Lookup { name } => Some(Call::Lookup { parent: h.nodeid, name }),
        Operation::Forget { arg } => Some(Call::Forget { ino: h.nodeid, nlookup: arg.nlookup }),
        Operation::GetAttr => Some(Call::GetAttr { ino: h.nodeid }),
        Operation::SetAttr { arg } => Some(Call::SetAttr {
            ino: h.nodeid,
            mode: spec_present(arg.valid, FATTR_MODE, arg.mode),
            uid: spec_present(arg.valid, FATTR_UID, arg.uid),
            gid: spec_present(arg.valid, FATTR_GID, arg.gid),
            size: spec_present(arg.valid, FATTR_SIZE, arg.size),
            atime: spec_present(arg.valid, FATTR_ATIME, (arg.atime, arg.atimensec)),
            mtime: spec_present(arg.valid, FATTR_MTIME, (arg.mtime, arg.mtimensec)),
            fh: spec_present(arg.valid, FATTR_FH, arg.fh),
        }),
        Operation::ReadLink => Some(Call::ReadLink { ino: h.nodeid }),
        Operation::MkNod { arg, name } => Some(Call::MkNod {
            parent: h.nodeid,
            name,
            mode: arg.mode,
            rdev: arg.rdev,
        }),
        Operation::MkDir { arg, name } => Some(Call::MkDir {
            parent: h.nodeid,
            name,
            mode: arg.mode,
        }),
        Operation::Unlink { name } => Some(Call::Unlink { parent: h.nodeid, name }),
        Operation::RmDir { name } => Some(Call::RmDir { parent: h.nodeid, name }),
        Operation::SymLink { name, link } => Some(Call::SymLink { parent: h.nodeid, name, link }),
        Operation::Rename { arg, name, newname } => Some(Call::Rename {
            parent: h.nodeid,
            name,
            newparent: arg.newdir,
            newname,
        }),
        Operation::Link { arg, name } => Some(Call::Link {
            ino: arg.oldnodeid,
            newparent: h.nodeid,
            newname: name,
        }),
        Operation::Open { arg } => Some(Call::Open { ino: h.nodeid, flags: arg.flags }),
        Operation::Read { arg } => Some(Call::Read {
            ino: h.nodeid,
            fh: arg.fh,
            offset: arg.offset as i64,
            size: arg.size,
        }),
        Operation::Write { arg, data } => Some(Call::Write {
            ino: h.nodeid,
            fh: arg.fh,
            offset: arg.offset as i64,
            data,
            flags: arg.write_flags,
        }),
        Operation::Flush { arg } => Some(Call::Flush {
            ino: h.nodeid,
            fh: arg.fh,
            lock_owner: arg.lock_owner,
        }),
        Operation::Release { arg } => Some(Call::Release {
            ino: h.nodeid,
            fh: arg.fh,
            flags: arg.flags,
            lock_owner: arg.lock_owner,
            flush: arg.release_flags & FUSE_RELEASE_FLUSH != 0,
        }),
        Operation::FSync { arg } => Some(Call::FSync {
            ino: h.nodeid,
            fh: arg.fh,
            datasync: arg.fsync_flags & FUSE_FSYNC_DATASYNC != 0,
        }),
        Operation::OpenDir { arg } => Some(Call::OpenDir { ino: h.nodeid, flags: arg.flags }),
        Operation::ReadDir { arg } => Some(Call::ReadDir {
            ino: h.nodeid,
            fh: arg.fh,
            offset: arg.offset as i64,
            size: arg.size,
        }),
        Operation::ReleaseDir { arg } => Some(Call::ReleaseDir {
            ino: h.nodeid,
            fh: arg.fh,
            flags: arg.flags,
        }),
        Operation::FSyncDir { arg } => Some(Call::FSyncDir {
            ino: h.nodeid,
            fh: arg.fh,
            datasync: arg.fsync_flags & FUSE_FSYNC_DATASYNC != 0,
        }),
        Operation::StatFs => Some(Call::StatFs { ino: h.nodeid }),
        Operation::SetXAttr { arg, name, value } => Some(Call::SetXAttr {
            ino: h.nodeid,
            name,
            value,
            flags: arg.flags,
            position: 0,
        }),
        Operation::GetXAttr { arg, name } => Some(Call::GetXAttr {
            ino: h.nodeid,
            name,
            size: arg.size,
        }),
        Operation::ListXAttr { arg } => Some(Call::ListXAttr { ino: h.nodeid, size: arg.size }),
        Operation::RemoveXAttr { name } => Some(Call::RemoveXAttr { ino: h.nodeid, name }),
        Operation::Access { arg } => Some(Call::Access { ino: h.nodeid, mask: arg.mask }),
        Operation::Create { arg, name } => Some(Call::Create {
            parent: h.nodeid,
            name,
            mode: arg.mode,
            flags: arg.flags,
        }),
        Operation::GetLk { arg } => Some(Call::GetLk {
            ino: h.nodeid,
            fh: arg.fh,
            lock_owner: arg.owner,
            start: arg.lk.start,
            end: arg.lk.end,
            typ: arg.lk.typ,
            pid: arg.lk.pid,
        }),
        Operation::SetLk { arg } => Some(Call::SetLk {
            ino: h.nodeid,
            fh: arg.fh,
            lock_owner: arg.owner,
            start: arg.lk.start,
            end: arg.lk.end,
            typ: arg.lk.typ,
            pid: arg.lk.pid,
            sleep: false,
        }),
        Operation::SetLkW { arg } => Some(Call::SetLk {
            ino: h.nodeid,
            fh: arg.fh,
            lock_owner: arg.owner,
            start: arg.lk.start,
            end: arg.lk.end,
            typ: arg.lk.typ,
            pid: arg.lk.pid,
            sleep: true,
        }),
        Operation::BMap { arg } => Some(Call::BMap {
            ino: h.nodeid,
            blocksize: arg.blocksize,
            idx: arg.block,
        }),
        _ => None,
    }
}

/// A SETATTR field: present when its bit is set in `valid`.
pub open spec fn spec_present<T>(valid: u32, bit: u32, value: T) -> Option<T> {
    if valid & bit != 0 {
        Some(value)
    } else {
        None
    }
}

fn present<T>(valid: u32, bit: u32, value: T) -> (r: Option<T>)
    ensures
        r == spec_present(valid, bit, value),
{
    if valid & bit != 0 {
        Some(value)
    } else {
        None
    }
}

/// What the session does with a request.
#[derive(Debug)]
pub enum Action {
    /// Send this reply packet; the filesystem is not called.
    Reply(Vec<u8>),
    /// Call the filesystem's `init`, then finish with [`Session::finish_init`].
    Init { arg: InitIn, reply: Reply },
    /// Call the filesystem's `destroy`, then finish with [`Session::finish_destroy`].
    Destroy { reply: Reply },
    /// Hand `call` to the filesystem, which answers through `reply`.
    Call { call: Call, reply: Reply },
    /// Hand `call` to the filesystem; nothing is sent back.
    Notify { call: Call },
}

/// The kernel's protocol version is older than 7.6.
pub open spec fn version_too_old(arg: InitIn) -> bool {
    arg.major < FUSE_KERNEL_VERSION || (arg.major == FUSE_KERNEL_VERSION && arg.minor
        < MIN_KERNEL_MINOR_VERSION)
}

/// `a` is an error reply to request `unique` with error number `errno`.
pub open spec fn is_error_reply(a: Action, unique: u64, errno: i32) -> bool {
    a is Reply && a->Reply_0@ == reply_bytes(unique, -errno as i32, Seq::empty())
}

/// Dispatching `req` in session state `se` gives action `a` and state `se2`.
pub open spec fn dispatched(se: Session, req: ll::Request, se2: Session, a: Action) -> bool {
    let u = req.header.unique;
    let reply = Reply { unique: u };
    match req.operation {
        Operation::Init { arg } => if se.initialized || se.destroyed {
            is_error_reply(a, u, EIO) && se2 == se
        } else if version_too_old(arg) {
            is_error_reply(a, u, EPROTO) && se2 == se
        } else {
            &&& a == Action::Init { arg, reply }
            &&& se2 == Session { proto_major: arg.major, proto_minor: arg.minor, ..se }
        },
        Operation::Destroy => if !se.initialized || se.destroyed {
            is_error_reply(a, u, EIO) && se2 == se
        } else {
            a == Action::Destroy { reply } && se2 == se
        },
        Operation::Interrupt { .. } => se2 == se && if !se.initialized || se.destroyed {
            is_error_reply(a, u, EIO)
        } else {
            is_error_reply(a, u, ENOSYS)
        },
        Operation::Forget { .. } => se2 == se && if !se.initialized || se.destroyed {
            is_error_reply(a, u, EIO)
        } else {
            a == Action::Notify { call: call_for(req.header, req.operation)->0 }
        },
        _ => se2 == se && if !se.initialized || se.destroyed {
            is_error_reply(a, u, EIO)
        } else {
            a == Action::Call { call: call_for(req.header, req.operation)->0, reply }
        },
    }
}

/// A request received from the kernel, ready to be dispatched.
#[derive(Debug)]
pub struct Request {
    pub request: ll::Request,
}

impl Request {
    /// Parses a raw packet; `None` where it is no valid request (such a
    /// packet is dropped unanswered, as its id cannot be trusted).
    pub fn new(data: &[u8]) -> (r: Option<Request>)
        ensures
            match r {
                Some(q) => parse_outcome(data@, Ok(q.request)) && q.request.wf(),
                None => forall|x: ll::Request| !#[trigger] parse_outcome(data@, Ok(x)),
            },
    {
        let parsed = ll::Request::parse(data);
        proof {
            if parsed is Ok {
                ll::request::lemma_parsed_wf(data@, parsed);
            }
        }
        match parsed {
            Ok(request) => Some(Request { request }),
            Err(_) => None,
        }
    }

    /// Decides what the session does with this request, and updates the
    /// session's phase and protocol version.
    pub fn dispatch(self, se: &mut Session) -> (a: Action)
        requires
            self.request.wf(),
        ensures
            dispatched(*old(se), self.request, *final(se), a),
            monotone(*old(se), *final(se)),
    {
        let h = self.request.header;
        let reply = Reply::new(h.unique);
        match self.request.operation {
            Operation::Init { arg } => {
                if se.initialized || se.destroyed {
                    Action::Reply(reply.error(EIO))
                } else if arg.major < FUSE_KERNEL_VERSION || (arg.major == FUSE_KERNEL_VERSION
                    && arg.minor < MIN_KERNEL_MINOR_VERSION) {
                    Action::Reply(reply.error(EPROTO))
                } else {
                    se.proto_major = arg.major;
                    se.proto_minor = arg.minor;
                    Action::Init { arg, reply }
                }
            },
            _ if !se.initialized || se.destroyed => Action::Reply(reply.error(EIO)),
            Operation::Destroy => Action::Destroy { reply },
            Operation::Interrupt { .. } => Action::Reply(reply.error(ENOSYS)),
            Operation::Lookup { name } => Action::Call { call: Call::Lookup {
                parent: h.nodeid,
                name,
            }, reply },
            Operation::Forget { arg } => Action::Notify { call: Call::Forget {
                ino: h.nodeid,
                nlookup: arg.nlookup,
            } },
            Operation::GetAttr => Action::Call { call: Call::GetAttr { ino: h.nodeid }, reply },
            Operation::SetAttr { arg } => Action::Call {
                call: Call::SetAttr {
                    ino: h.nodeid,
                    mode: present(arg.valid, FATTR_MODE, arg.mode),
                    uid: present(arg.valid, FATTR_UID, arg.uid),
                    gid: present(arg.valid, FATTR_GID, arg.gid),
                    size: present(arg.valid, FATTR_SIZE, arg.size),
                    atime: present(arg.valid, FATTR_ATIME, (arg.atime, arg.atimensec)),
                    mtime: present(arg.valid, FATTR_MTIME, (arg.mtime, arg.mtimensec)),
                    fh: present(arg.valid, FATTR_FH, arg.fh),
                },
                reply,
            },
            Operation::ReadLink => Action::Call { call: Call::ReadLink { ino: h.nodeid }, reply },
            Operation::MkNod { arg, name } => Action::Call { call: Call::MkNod {
                parent: h.nodeid,
                name,
                mode: arg.mode,
                rdev: arg.rdev,
            }, reply },
            Operation::MkDir { arg, name } => Action::Call { call: Call::MkDir {
                parent: h.nodeid,
                name,
                mode: arg.mode,
            }, reply },
            Operation::Unlink { name } => Action::Call { call: Call::Unlink {
                parent: h.nodeid,
                name,
            }, reply },
            Operation::RmDir { name } => Action::Call { call: Call::RmDir {
                parent: h.nodeid,
                name,
            }, reply },
            Operation::SymLink { name, link } => Action::Call { call: Call::SymLink {
                parent: h.nodeid,
                name,
                link,
            }, reply },
            Operation::Rename { arg, name, newname } => Action::Call { call: Call::Rename {
                parent: h.nodeid,
                name,
                newparent: arg.newdir,
                newname,
            }, reply },
            Operation::Link { arg, name } => Action::Call { call: Call::Link {
                ino: arg.oldnodeid,
                newparent: h.nodeid,
                newname: name,
            }, reply },
            Operation::Open { arg } => Action::Call { call: Call::Open {
                ino: h.nodeid,
                flags: arg.flags,
            }, reply },
            Operation::Read { arg } => Action::Call { call: Call::Read {
                ino: h.nodeid,
                fh: arg.fh,
                offset: arg.offset as i64,
                size: arg.size,
            }, reply },
            Operation::Write { arg, data } => Action::Call { call: Call::Write {
                ino: h.nodeid,
                fh: arg.fh,
                offset: arg.offset as i64,
                data,
                flags: arg.write_flags,
            }, reply },
            Operation::Flush { arg } => Action::Call { call: Call::Flush {
                ino: h.nodeid,
                fh: arg.fh,
                lock_owner: arg.lock_owner,
            }, reply },
            Operation::Release { arg } => Action::Call { call: Call::Release {
                ino: h.nodeid,
                fh: arg.fh,
                flags: arg.flags,
                lock_owner: arg.lock_owner,
                flush: arg.release_flags & FUSE_RELEASE_FLUSH != 0,
            }, reply },
            Operation::FSync { arg } => Action::Call { call: Call::FSync {
                ino: h.nodeid,
                fh: arg.fh,
                datasync: arg.fsync_flags & FUSE_FSYNC_DATASYNC != 0,
            }, reply },
            Operation::OpenDir { arg } => Action::Call { call: Call::OpenDir {
                ino: h.nodeid,
                flags: arg.flags,
            }, reply },
            Operation::ReadDir { arg } => Action::Call { call: Call::ReadDir {
                ino: h.nodeid,
                fh: arg.fh,
                offset: arg.offset as i64,
                size: arg.size,
            }, reply },
            Operation::ReleaseDir { arg } => Action::Call { call: Call::ReleaseDir {
                ino: h.nodeid,
                fh: arg.fh,
                flags: arg.flags,
            }, reply },
            Operation::FSyncDir { arg } => Action::Call { call: Call::FSyncDir {
                ino: h.nodeid,
                fh: arg.fh,
                datasync: arg.fsync_flags & FUSE_FSYNC_DATASYNC != 0,
            }, reply },
            Operation::StatFs => Action::Call { call: Call::StatFs { ino: h.nodeid }, reply },
            Operation::SetXAttr { arg, name, value } => Action::Call { call: Call::SetXAttr {
                ino: h.nodeid,
                name,
                value,
                flags: arg.flags,
                position: 0,
            }, reply },
            Operation::GetXAttr { arg, name } => Action::Call { call: Call::GetXAttr {
                ino: h.nodeid,
                name,
                size: arg.size,
            }, reply },
            Operation::ListXAttr { arg } => Action::Call { call: Call::ListXAttr {
                ino: h.nodeid,
                size: arg.size,
            }, reply },
            Operation::RemoveXAttr { name } => Action::Call { call: Call::RemoveXAttr {
                ino: h.nodeid,
                name,
            }, reply },
            Operation::Access { arg } => Action::Call { call: Call::Access {
                ino: h.nodeid,
                mask: arg.mask,
            }, reply },
            Operation::Create { arg, name } => Action::Call { call: Call::Create {
                parent: h.nodeid,
                name,
                mode: arg.mode,
                flags: arg.flags,
            }, reply },
            Operation::GetLk { arg } => Action::Call { call: Call::GetLk {
                ino: h.nodeid,
                fh: arg.fh,
                lock_owner: arg.owner,
                start: arg.lk.start,
                end: arg.lk.end,
                typ: arg.lk.typ,
                pid: arg.lk.pid,
            }, reply },
            Operation::SetLk { arg } => Action::Call { call: Call::SetLk {
                ino: h.nodeid,
                fh: arg.fh,
                lock_owner: arg.owner,
                start: arg.lk.start,
                end: arg.lk.end,
                typ: arg.lk.typ,
                pid: arg.lk.pid,
                sleep: false,
            }, reply },
            Operation::SetLkW { arg } => Action::Call { call: Call::SetLk {
                ino: h.nodeid,
                fh: arg.fh,
                lock_owner: arg.owner,
                start: arg.lk.start,
                end: arg.lk.end,
                typ: arg.lk.typ,
                pid: arg.lk.pid,
                sleep: true,
            }, reply },
            Operation::BMap { arg } => Action::Call { call: Call::BMap {
                ino: h.nodeid,
                blocksize: arg.blocksize,
                idx: arg.block,
            }, reply },
        }
    }

    /// The id the kernel gave this request.
    pub fn unique(&self) -> (r: u64)
        ensures
            r == self.request.header.unique,
    {
        self.request.unique()
    }

    /// The user id of the process that caused the request.
    pub fn uid(&self) -> (r: u32)
        ensures
            r == self.request.header.uid,
    {
        self.request.uid()
    }

    /// The group id of the process that caused the request.
    pub fn gid(&self) -> (r: u32)
        ensures
            r == self.request.header.gid,
    {
        self.request.gid()
    }

    /// The process id of the process that caused the request.
    pub fn pid(&self) -> (r: u32)
        ensures
            r == self.request.header.pid,
    {
        self.request.pid()
    }
}

/// What this library answers to an INIT with arguments `arg`.
pub open spec fn init_out_for(arg: InitIn) -> InitOut {
    InitOut {
        major: FUSE_KERNEL_VERSION,
        minor: FUSE_KERNEL_MINOR_VERSION,
        max_readahead: arg.max_readahead,
        flags: arg.flags & INIT_FLAGS,
        unused: 0,
        max_write: MAX_WRITE_SIZE,
    }
}

impl Session {
    /// Finishes an INIT once the filesystem's `init` has returned `outcome`:
    /// on success the session is initialized and the reply announces this
    /// library's version and settings; on failure the error is sent back.
    pub fn finish_init(&mut self, arg: InitIn, reply: Reply, outcome: Result<(), i32>) -> (r: Vec<u8>)
        requires
            outcome matches Err(e) ==> e > 0,
        ensures
            monotone(*old(self), *final(self)),
            match outcome {
                Ok(()) => {
                    &&& *final(self) == (Session { initialized: true, ..*old(self) })
                    &&& r@ == reply_bytes(reply.unique, 0, init_out_for(arg).spec_bytes())
                },
                Err(e) => {
                    &&& *final(self) == *old(self)
                    &&& r@ == reply_bytes(reply.unique, -e as i32, Seq::empty())
                },
            },
    {
        match outcome {
            Ok(()) => {
                let init = InitOut {
                    major: FUSE_KERNEL_VERSION,
                    minor: FUSE_KERNEL_MINOR_VERSION,
                    max_readahead: arg.max_readahead,
                    flags: arg.flags & INIT_FLAGS,
                    unused: 0,
                    max_write: MAX_WRITE_SIZE,
                };
                self.initialized = true;
                let payload = init.to_bytes();
                reply.ok(payload.as_slice())
            },
            Err(e) => reply.error(e),
        }
    }

    /// Finishes a DESTROY once the filesystem's `destroy` has returned: the
    /// session is destroyed and an empty success reply is sent.
    pub fn finish_destroy(&mut self, reply: Reply) -> (r: Vec<u8>)
        ensures
            *final(self) == (Session { destroyed: true, ..*old(self) }),
            monotone(*old(self), *final(self)),
            r@ == reply_bytes(reply.unique, 0, Seq::empty()),
    {
        self.destroyed = true;
        let none: [u8; 0] = [];
        reply.ok(none.as_slice())
    }
}

/// Whatever the session does with a request, an answer it sends or hands
/// out is bound to that request's id: a packet sent at once carries the id,
/// and so does the reply handle given to the filesystem.
pub proof fn lemma_reply_carries_unique(se: Session, req: ll::Request, se2: Session, a: Action)
    requires
        dispatched(se, req, se2, a),
    ensures
        match a {
            Action::Reply(packet) => match reply_fields(packet@) {
                Some((unique, _, _)) => unique == req.header.unique,
                None => false,
            },
            Action::Init { reply, .. } => reply.unique == req.header.unique,
            Action::Destroy { reply } => reply.unique == req.header.unique,
            Action::Call { reply, .. } => reply.unique == req.header.unique,
            Action::Notify { .. } => true,
        },
{
    let u = req.header.unique;
    lemma_reply_round_trip(u, -EIO as i32, Seq::empty());
    lemma_reply_round_trip(u, -ENOSYS as i32, Seq::empty());
    lemma_reply_round_trip(u, -EPROTO as i32, Seq::empty());
}

/// For WRITE and SETXATTR, the data handed to the filesystem holds exactly as
/// many bytes as the request's arguments say.
pub proof fn lemma_forwarded_data_size(b: Seq<u8>, req: ll::Request)
    requires
        parse_outcome(b, Ok(req)),
    ensures
        req.operation matches Operation::Write { arg, .. } ==> call_for(
            req.header,
            req.operation,
        ) matches Some(Call::Write { data, .. }) && data@.len() == arg.size,
        req.operation matches Operation::SetXAttr { arg, .. } ==> call_for(
            req.header,
            req.operation,
        ) matches Some(Call::SetXAttr { value, .. }) && value@.len() == arg.size,
{
    ll::request::lemma_parsed_wf(b, Ok(req));
}

} // verus!
