use async_fuse::wire::{read_u32, read_u64, ArgumentIterator};

#[test]
fn cursor_reads_in_sequence() {
    let data = b"\x01\x02\x03\x04ab\0cd\0rest";
    let mut it = ArgumentIterator::new(data);
    assert_eq!(it.fetch(4), Some(0));
    assert_eq!(it.fetch_str(), Some(&b"ab"[..]));
    assert_eq!(it.fetch_str(), Some(&b"cd"[..]));
    assert_eq!(it.len(), 4);
    assert_eq!(it.fetch_str(), None);
    assert_eq!(it.len(), 4);
    assert_eq!(it.fetch_bytes(5), None);
    assert_eq!(it.fetch_all(), &b"rest"[..]);
    assert_eq!(it.fetch_all(), &b""[..]);
    assert_eq!(it.fetch(1), None);
}

#[test]
fn empty_string_is_a_single_nul() {
    let mut it = ArgumentIterator::new(b"\0x");
    assert_eq!(it.fetch_str(), Some(&b""[..]));
    assert_eq!(it.fetch_bytes(1), Some(&b"x"[..]));
}

#[test]
fn integers_are_little_endian() {
    let b = [0u8, 0x78, 0x56, 0x34, 0x12, 0xef, 0xcd, 0xab, 0x90, 0x78, 0x56, 0x34, 0x12];
    assert_eq!(read_u32(&b, 1), 0x1234_5678);
    assert_eq!(read_u64(&b, 5), 0x1234_5678_90ab_cdef);
}
