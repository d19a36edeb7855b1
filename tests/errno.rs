use async_fuse::reply::{EIO, ENOSYS, EPROTO};

#[test]
fn error_numbers_match_the_platform() {
    assert_eq!(EIO, libc::EIO);
    assert_eq!(ENOSYS, libc::ENOSYS);
    assert_eq!(EPROTO, libc::EPROTO);
}
