use async_fuse::abi::{InitIn, FUSE_ASYNC_READ, MAX_WRITE_SIZE};
use async_fuse::reply::{decode_reply, encode_reply, FileType, Reply, ReplyDirectory, EIO, ENOSYS, EPROTO};
use async_fuse::request::{Action, Call, Request};
use async_fuse::session::Session;

const UNIQUE: u64 = 0xdead_beef_baad_f00d;

fn packet(opcode: u32, unique: u64, body: &[u8]) -> Vec<u8> {
    let mut p = Vec::new();
    p.extend_from_slice(&((40 + body.len()) as u32).to_le_bytes());
    p.extend_from_slice(&opcode.to_le_bytes());
    p.extend_from_slice(&unique.to_le_bytes());
    p.extend_from_slice(&0x1122_3344_5566_7788u64.to_le_bytes());
    p.extend_from_slice(&0xc001_d00du32.to_le_bytes());
    p.extend_from_slice(&0xc001_cafeu32.to_le_bytes());
    p.extend_from_slice(&0xc0de_ba5eu32.to_le_bytes());
    p.extend_from_slice(&0u32.to_le_bytes());
    p.extend_from_slice(body);
    p
}

fn init_packet(major: u32, minor: u32, flags: u32) -> Vec<u8> {
    let mut body = Vec::new();
    body.extend_from_slice(&major.to_le_bytes());
    body.extend_from_slice(&minor.to_le_bytes());
    body.extend_from_slice(&4096u32.to_le_bytes());
    body.extend_from_slice(&flags.to_le_bytes());
    packet(26, UNIQUE, &body)
}

fn request(p: &[u8]) -> Request {
    Request::new(p).unwrap()
}

fn expect_error(a: Action, unique: u64, errno: i32) {
    match a {
        Action::Reply(bytes) => {
            let (u, result, payload) = decode_reply(&bytes).unwrap();
            assert_eq!(u, unique);
            assert_eq!(result, -errno);
            assert!(payload.is_empty());
        }
        other => panic!("expected an error reply, got {:?}", other),
    }
}

/// Runs a successful INIT handshake and returns the reply packet.
fn handshake(se: &mut Session, flags: u32) -> Vec<u8> {
    match request(&init_packet(7, 8, flags)).dispatch(se) {
        Action::Init { arg, reply } => se.finish_init(arg, reply, Ok(())),
        other => panic!("expected INIT, got {:?}", other),
    }
}

#[test]
fn getattr_before_init_is_refused() {
    let mut se = Session::new();
    let a = request(&packet(3, 42, &[])).dispatch(&mut se);
    expect_error(a, 42, EIO);
    assert!(!se.initialized);
}

#[test]
fn init_handshake() {
    let mut se = Session::new();
    let req = request(&init_packet(7, 8, 0xffff_ffff));
    let (arg, reply) = match req.dispatch(&mut se) {
        Action::Init { arg, reply } => (arg, reply),
        other => panic!("expected INIT, got {:?}", other),
    };
    assert_eq!(reply.unique, UNIQUE);
    assert_eq!((se.proto_major, se.proto_minor), (7, 8));
    assert!(!se.initialized);
    let out = se.finish_init(arg, reply, Ok(()));
    assert!(se.initialized);
    let (u, result, payload) = decode_reply(&out).unwrap();
    assert_eq!(u, UNIQUE);
    assert_eq!(result, 0);
    assert_eq!(payload.len(), 24);
    let word = |i: usize| u32::from_le_bytes([payload[i], payload[i + 1], payload[i + 2], payload[i + 3]]);
    assert_eq!(word(0), 7);
    assert_eq!(word(4), 8);
    assert_eq!(word(8), 4096);
    assert_eq!(word(12), 0xffff_ffff & FUSE_ASYNC_READ);
    assert_eq!(word(20), MAX_WRITE_SIZE);
}

#[test]
fn init_flags_are_masked() {
    let mut se = Session::new();
    let out = handshake(&mut se, 0x0000_0006);
    let (_, _, payload) = decode_reply(&out).unwrap();
    assert_eq!(&payload[12..16], &0u32.to_le_bytes());
}

#[test]
fn init_with_old_version_is_refused() {
    let mut se = Session::new();
    let a = request(&init_packet(7, 5, 0)).dispatch(&mut se);
    expect_error(a, UNIQUE, EPROTO);
    assert!(!se.initialized);
    let a = request(&init_packet(6, 30, 0)).dispatch(&mut se);
    expect_error(a, UNIQUE, EPROTO);
    assert!(!se.initialized);
}

#[test]
fn init_at_oldest_version_is_accepted() {
    let mut se = Session::new();
    match request(&init_packet(7, 6, 0)).dispatch(&mut se) {
        Action::Init { arg, .. } => assert_eq!((arg.major, arg.minor), (7, 6)),
        other => panic!("expected INIT, got {:?}", other),
    }
}

#[test]
fn failed_init_leaves_session_uninitialized() {
    let mut se = Session::new();
    let arg = InitIn { major: 7, minor: 8, max_readahead: 0, flags: 0 };
    let out = se.finish_init(arg, Reply::new(9), Err(13));
    assert!(!se.initialized);
    assert_eq!(decode_reply(&out).unwrap(), (9, -13, Vec::new()));
}

#[test]
fn destroy_then_getattr() {
    let mut se = Session::new();
    handshake(&mut se, 0);
    let out = match request(&packet(38, 7, &[])).dispatch(&mut se) {
        Action::Destroy { reply } => se.finish_destroy(reply),
        other => panic!("expected DESTROY, got {:?}", other),
    };
    assert_eq!(decode_reply(&out).unwrap(), (7, 0, Vec::new()));
    assert!(se.destroyed);
    let a = request(&packet(3, 8, &[])).dispatch(&mut se);
    expect_error(a, 8, EIO);
    let a = request(&packet(38, 9, &[])).dispatch(&mut se);
    expect_error(a, 9, EIO);
    assert!(se.initialized && se.destroyed);
}

#[test]
fn second_init_is_refused() {
    let mut se = Session::new();
    handshake(&mut se, 0);
    let a = request(&init_packet(7, 12, 0)).dispatch(&mut se);
    expect_error(a, UNIQUE, EIO);
    assert_eq!((se.proto_major, se.proto_minor), (7, 8));
}

#[test]
fn interrupt_is_not_implemented() {
    let mut se = Session::new();
    handshake(&mut se, 0);
    let a = request(&packet(36, 5, &1u64.to_le_bytes())).dispatch(&mut se);
    expect_error(a, 5, ENOSYS);
}

#[test]
fn getattr_after_init_is_forwarded() {
    let mut se = Session::new();
    handshake(&mut se, 0);
    match request(&packet(3, 77, &[])).dispatch(&mut se) {
        Action::Call { call: Call::GetAttr { ino }, reply } => {
            assert_eq!(ino, 0x1122_3344_5566_7788);
            assert_eq!(reply.unique, 77);
        }
        other => panic!("expected GETATTR, got {:?}", other),
    }
}

#[test]
fn forget_expects_no_reply() {
    let mut se = Session::new();
    handshake(&mut se, 0);
    match request(&packet(2, 3, &10u64.to_le_bytes())).dispatch(&mut se) {
        Action::Notify { call: Call::Forget { ino, nlookup } } => {
            assert_eq!(ino, 0x1122_3344_5566_7788);
            assert_eq!(nlookup, 10);
        }
        other => panic!("expected FORGET, got {:?}", other),
    }
}

#[test]
fn setattr_projects_valid_fields() {
    let mut se = Session::new();
    handshake(&mut se, 0);
    let mut body = Vec::new();
    body.extend_from_slice(&(1u32 | 8 | 32).to_le_bytes()); // valid: mode, size, mtime
    body.extend_from_slice(&0u32.to_le_bytes());
    body.extend_from_slice(&11u64.to_le_bytes()); // fh
    body.extend_from_slice(&4096u64.to_le_bytes()); // size
    body.extend_from_slice(&0u64.to_le_bytes());
    body.extend_from_slice(&100u64.to_le_bytes()); // atime
    body.extend_from_slice(&200u64.to_le_bytes()); // mtime
    body.extend_from_slice(&0u64.to_le_bytes());
    body.extend_from_slice(&1u32.to_le_bytes()); // atimensec
    body.extend_from_slice(&2u32.to_le_bytes()); // mtimensec
    body.extend_from_slice(&0u32.to_le_bytes());
    body.extend_from_slice(&0o755u32.to_le_bytes()); // mode
    body.extend_from_slice(&0u32.to_le_bytes());
    body.extend_from_slice(&1000u32.to_le_bytes()); // uid
    body.extend_from_slice(&1000u32.to_le_bytes()); // gid
    body.extend_from_slice(&0u32.to_le_bytes());
    match request(&packet(4, 1, &body)).dispatch(&mut se) {
        Action::Call { call: Call::SetAttr { mode, uid, gid, size, atime, mtime, fh, .. }, .. } => {
            assert_eq!(mode, Some(0o755));
            assert_eq!(uid, None);
            assert_eq!(gid, None);
            assert_eq!(size, Some(4096));
            assert_eq!(atime, None);
            assert_eq!(mtime, Some((200, 2)));
            assert_eq!(fh, None);
        }
        other => panic!("expected SETATTR, got {:?}", other),
    }
}

fn lk_body() -> Vec<u8> {
    let mut body = Vec::new();
    for v in [1u64, 2, 3, 4] {
        body.extend_from_slice(&v.to_le_bytes());
    }
    body.extend_from_slice(&1u32.to_le_bytes());
    body.extend_from_slice(&99u32.to_le_bytes());
    body
}

#[test]
fn setlk_and_setlkw_differ_in_sleep() {
    let mut se = Session::new();
    handshake(&mut se, 0);
    for (opcode, blocking) in [(32u32, false), (33u32, true)] {
        match request(&packet(opcode, 1, &lk_body())).dispatch(&mut se) {
            Action::Call { call: Call::SetLk { fh, lock_owner, start, end, typ, pid, sleep, .. }, .. } => {
                assert_eq!((fh, lock_owner, start, end, typ, pid), (1, 2, 3, 4, 1, 99));
                assert_eq!(sleep, blocking);
            }
            other => panic!("expected SETLK, got {:?}", other),
        }
    }
}

#[test]
fn release_and_fsync_flags_are_decoded() {
    let mut se = Session::new();
    handshake(&mut se, 0);
    let mut body = Vec::new();
    body.extend_from_slice(&5u64.to_le_bytes());
    body.extend_from_slice(&2u32.to_le_bytes());
    body.extend_from_slice(&1u32.to_le_bytes());
    body.extend_from_slice(&6u64.to_le_bytes());
    match request(&packet(18, 1, &body)).dispatch(&mut se) {
        Action::Call { call: Call::Release { fh, flags, lock_owner, flush, .. }, .. } => {
            assert_eq!((fh, flags, lock_owner, flush), (5, 2, 6, true));
        }
        other => panic!("expected RELEASE, got {:?}", other),
    }
    let mut body = Vec::new();
    body.extend_from_slice(&5u64.to_le_bytes());
    body.extend_from_slice(&2u32.to_le_bytes());
    body.extend_from_slice(&0u32.to_le_bytes());
    match request(&packet(20, 1, &body)).dispatch(&mut se) {
        Action::Call { call: Call::FSync { fh, datasync, .. }, .. } => {
            assert_eq!((fh, datasync), (5, false));
        }
        other => panic!("expected FSYNC, got {:?}", other),
    }
}

#[test]
fn forwarded_write_data_matches_size() {
    let mut se = Session::new();
    handshake(&mut se, 0);
    let mut body = Vec::new();
    body.extend_from_slice(&3u64.to_le_bytes());
    body.extend_from_slice(&100u64.to_le_bytes());
    body.extend_from_slice(&3u32.to_le_bytes());
    body.extend_from_slice(&0u32.to_le_bytes());
    body.extend_from_slice(b"xyz");
    match request(&packet(16, 1, &body)).dispatch(&mut se) {
        Action::Call { call: Call::Write { data, offset, .. }, .. } => {
            assert_eq!(data, b"xyz".to_vec());
            assert_eq!(offset, 100);
        }
        other => panic!("expected WRITE, got {:?}", other),
    }
}

#[test]
fn reply_round_trip() {
    let bytes = encode_reply(0x0102_0304_0506_0708, -2, b"payload");
    assert_eq!(bytes.len(), 16 + 7);
    assert_eq!(&bytes[0..4], &23u32.to_le_bytes());
    assert_eq!(&bytes[4..8], &(-2i32).to_le_bytes());
    assert_eq!(&bytes[8..16], &0x0102_0304_0506_0708u64.to_le_bytes());
    assert_eq!(decode_reply(&bytes).unwrap(), (0x0102_0304_0506_0708, -2, b"payload".to_vec()));
}

#[test]
fn reply_with_wrong_length_is_not_decoded() {
    let mut bytes = encode_reply(1, 0, b"ab");
    bytes.push(0);
    assert_eq!(decode_reply(&bytes), None);
    assert_eq!(decode_reply(&bytes[..10]), None);
}

#[test]
fn directory_entries_are_padded() {
    let mut dir = ReplyDirectory::new(4, 64);
    assert!(!dir.add(2, 1, FileType::Directory, b"abc"));
    assert_eq!(dir.data.len(), 32);
    assert_eq!(&dir.data[0..8], &2u64.to_le_bytes());
    assert_eq!(&dir.data[8..16], &1u64.to_le_bytes());
    assert_eq!(&dir.data[16..20], &3u32.to_le_bytes());
    assert_eq!(&dir.data[20..24], &4u32.to_le_bytes());
    assert_eq!(&dir.data[24..32], b"abc\0\0\0\0\0");
    assert!(!dir.add(3, 2, FileType::RegularFile, b"12345678"));
    assert_eq!(dir.data.len(), 64);
    assert!(dir.add(4, 3, FileType::Symlink, b""));
    assert_eq!(dir.data.len(), 64);
    let out = dir.ok();
    let (u, result, payload) = decode_reply(&out).unwrap();
    assert_eq!((u, result, payload.len()), (4, 0, 64));
}
