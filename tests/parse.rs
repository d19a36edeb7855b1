use async_fuse::abi::{InHeader, IN_HEADER_SIZE};
use async_fuse::ll::{Operation, Request, RequestError};

const INIT_REQUEST: [u8; 56] = [
    0x38, 0x00, 0x00, 0x00, 0x1a, 0x00, 0x00, 0x00, // len, opcode
    0x0d, 0xf0, 0xad, 0xba, 0xef, 0xbe, 0xad, 0xde, // unique
    0x88, 0x77, 0x66, 0x55, 0x44, 0x33, 0x22, 0x11, // nodeid
    0x0d, 0xd0, 0x01, 0xc0, 0xfe, 0xca, 0x01, 0xc0, // uid, gid
    0x5e, 0xba, 0xde, 0xc0, 0x00, 0x00, 0x00, 0x00, // pid, padding
    0x07, 0x00, 0x00, 0x00, 0x08, 0x00, 0x00, 0x00, // major, minor
    0x00, 0x10, 0x00, 0x00, 0x00, 0x00, 0x00, 0x00, // max_readahead, flags
];

const MKNOD_REQUEST: [u8; 56] = [
    0x38, 0x00, 0x00, 0x00, 0x08, 0x00, 0x00, 0x00, // len, opcode
    0x0d, 0xf0, 0xad, 0xba, 0xef, 0xbe, 0xad, 0xde, // unique
    0x88, 0x77, 0x66, 0x55, 0x44, 0x33, 0x22, 0x11, // nodeid
    0x0d, 0xd0, 0x01, 0xc0, 0xfe, 0xca, 0x01, 0xc0, // uid, gid
    0x5e, 0xba, 0xde, 0xc0, 0x00, 0x00, 0x00, 0x00, // pid, padding
    0xa4, 0x01, 0x00, 0x00, 0x00, 0x00, 0x00, 0x00, // mode, rdev
    0x66, 0x6f, 0x6f, 0x2e, 0x74, 0x78, 0x74, 0x00, // name
];

/// A packet with the fixture's header fields, the given opcode and body.
fn packet(opcode: u32, body: &[u8]) -> Vec<u8> {
    let mut p = Vec::new();
    p.extend_from_slice(&((40 + body.len()) as u32).to_le_bytes());
    p.extend_from_slice(&opcode.to_le_bytes());
    p.extend_from_slice(&INIT_REQUEST[8..40]);
    p.extend_from_slice(body);
    p
}

#[test]
fn short_read_header() {
    match Request::try_from(&INIT_REQUEST[..20]) {
        Err(RequestError::ShortReadHeader(20)) => (),
        _ => panic!("Unexpected request parsing result"),
    }
}

#[test]
fn short_read() {
    match Request::try_from(&INIT_REQUEST[..48]) {
        Err(RequestError::ShortRead(48, 56)) => (),
        _ => panic!("Unexpected request parsing result"),
    }
}

#[test]
fn init() {
    let req = Request::try_from(&INIT_REQUEST[..]).unwrap();
    assert_eq!(req.header().len, 56);
    assert_eq!(req.header().opcode, 26);
    assert_eq!(req.unique(), 0xdead_beef_baad_f00d);
    assert_eq!(req.nodeid(), 0x1122_3344_5566_7788);
    assert_eq!(req.uid(), 0xc001_d00d);
    assert_eq!(req.gid(), 0xc001_cafe);
    assert_eq!(req.pid(), 0xc0de_ba5e);
    match req.operation() {
        Operation::Init { arg } => {
            assert_eq!(arg.major, 7);
            assert_eq!(arg.minor, 8);
            assert_eq!(arg.max_readahead, 4096);
        }
        _ => panic!("Unexpected request operation"),
    }
}

#[test]
fn mknod() {
    let req = Request::try_from(&MKNOD_REQUEST[..]).unwrap();
    assert_eq!(req.header().len, 56);
    assert_eq!(req.header().opcode, 8);
    assert_eq!(req.unique(), 0xdead_beef_baad_f00d);
    assert_eq!(req.nodeid(), 0x1122_3344_5566_7788);
    assert_eq!(req.uid(), 0xc001_d00d);
    assert_eq!(req.gid(), 0xc001_cafe);
    assert_eq!(req.pid(), 0xc0de_ba5e);
    match req.operation() {
        Operation::MkNod { arg, name } => {
            assert_eq!(arg.mode, 0o644);
            assert_eq!(name.as_slice(), b"foo.txt");
        }
        _ => panic!("Unexpected request operation"),
    }
}

#[test]
fn every_short_prefix_is_a_short_header() {
    for n in 0..IN_HEADER_SIZE {
        assert_eq!(Request::parse(&INIT_REQUEST[..n]).unwrap_err(), RequestError::ShortReadHeader(n));
    }
}

#[test]
fn empty_packet_is_a_short_header() {
    assert_eq!(Request::parse(&[]).unwrap_err(), RequestError::ShortReadHeader(0));
}

#[test]
fn unknown_opcode_is_refused() {
    let p = packet(99, &[]);
    assert_eq!(Request::parse(&p).unwrap_err(), RequestError::UnknownOperation(99));
}

#[test]
fn unknown_opcode_wins_over_short_body() {
    let mut p = INIT_REQUEST;
    p[4] = 7;
    assert_eq!(Request::parse(&p[..48]).unwrap_err(), RequestError::UnknownOperation(7));
}

#[test]
fn missing_argument_is_insufficient_data() {
    // INIT with only half of its arguments.
    let p = packet(26, &[7, 0, 0, 0, 8, 0, 0, 0]);
    assert_eq!(Request::parse(&p).unwrap_err(), RequestError::InsufficientData);
}

#[test]
fn name_without_nul_is_insufficient_data() {
    let p = packet(1, b"foo");
    assert_eq!(Request::parse(&p).unwrap_err(), RequestError::InsufficientData);
}

#[test]
fn header_bytes_are_kept() {
    let req = Request::try_from(&MKNOD_REQUEST[..]).unwrap();
    let h: &InHeader = req.header();
    let mut bytes = Vec::new();
    bytes.extend_from_slice(&h.len.to_le_bytes());
    bytes.extend_from_slice(&h.opcode.to_le_bytes());
    bytes.extend_from_slice(&h.unique.to_le_bytes());
    bytes.extend_from_slice(&h.nodeid.to_le_bytes());
    bytes.extend_from_slice(&h.uid.to_le_bytes());
    bytes.extend_from_slice(&h.gid.to_le_bytes());
    bytes.extend_from_slice(&h.pid.to_le_bytes());
    bytes.extend_from_slice(&h.padding.to_le_bytes());
    assert_eq!(bytes.as_slice(), &MKNOD_REQUEST[..40]);
}

#[test]
fn rename_reads_two_names() {
    let mut body = Vec::new();
    body.extend_from_slice(&5u64.to_le_bytes());
    body.extend_from_slice(b"old\0new\0");
    let req = Request::parse(&packet(12, &body)).unwrap();
    match req.operation() {
        Operation::Rename { arg, name, newname } => {
            assert_eq!(arg.newdir, 5);
            assert_eq!(name.as_slice(), b"old");
            assert_eq!(newname.as_slice(), b"new");
        }
        _ => panic!("Unexpected request operation"),
    }
}

#[test]
fn write_data_has_the_declared_size() {
    let mut body = Vec::new();
    body.extend_from_slice(&3u64.to_le_bytes()); // fh
    body.extend_from_slice(&100u64.to_le_bytes()); // offset
    body.extend_from_slice(&4u32.to_le_bytes()); // size
    body.extend_from_slice(&0u32.to_le_bytes()); // write flags
    body.extend_from_slice(b"abcd");
    let req = Request::parse(&packet(16, &body)).unwrap();
    match req.operation() {
        Operation::Write { arg, data } => {
            assert_eq!(arg.size, 4);
            assert_eq!(data.as_slice(), b"abcd");
        }
        _ => panic!("Unexpected request operation"),
    }
}

#[test]
fn write_with_too_little_data_is_insufficient_data() {
    let mut body = Vec::new();
    body.extend_from_slice(&3u64.to_le_bytes());
    body.extend_from_slice(&100u64.to_le_bytes());
    body.extend_from_slice(&8u32.to_le_bytes());
    body.extend_from_slice(&0u32.to_le_bytes());
    body.extend_from_slice(b"abcd");
    assert_eq!(Request::parse(&packet(16, &body)).unwrap_err(), RequestError::InsufficientData);
}

#[test]
fn setxattr_reads_name_and_value() {
    let mut body = Vec::new();
    body.extend_from_slice(&2u32.to_le_bytes()); // size
    body.extend_from_slice(&1u32.to_le_bytes()); // flags
    body.extend_from_slice(b"user.x\0hi");
    let req = Request::parse(&packet(21, &body)).unwrap();
    match req.operation() {
        Operation::SetXAttr { arg, name, value } => {
            assert_eq!(arg.flags, 1);
            assert_eq!(name.as_slice(), b"user.x");
            assert_eq!(value.as_slice(), b"hi");
        }
        _ => panic!("Unexpected request operation"),
    }
}
