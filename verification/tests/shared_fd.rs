use uring_core::io::SharedFd;

#[test]
fn clones_share_the_descriptor() {
    let fd = SharedFd::new(42);
    let other = fd.clone();
    assert_eq!(fd.raw_fd(), 42);
    assert_eq!(other.raw_fd(), 42);
}

#[test]
fn only_the_last_handle_receives_the_descriptor() {
    let fd = SharedFd::new(17);
    let second = fd.clone();
    let third = second.clone();
    assert_eq!(fd.into_raw(), None);
    assert_eq!(third.into_raw(), None);
    assert_eq!(second.into_raw(), Some(17));
}

#[test]
fn handles_can_cross_threads() {
    fn is_send_and_sync<T: Send + Sync>(_: &T) {}
    let fd = SharedFd::new(1);
    is_send_and_sync(&fd);
    assert_eq!(fd.into_raw(), Some(1));
}
