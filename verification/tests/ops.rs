use std::io::ErrorKind;

use uring_core::buf::{Buffer, FixedBuf, IoBuf, Provenance, Slice};
use uring_core::io::{SharedFd, Unsubmitted, UnsubmittedRead, UnsubmittedWrite};
use uring_core::op::{os_code_of, Opcode, Submission};

#[test]
fn write_of_one_region_then_completion_with_full_count() {
    let fd = SharedFd::new(3);
    let buf = Buffer::from(vec![1u8; 128]);
    let addr = buf.stable_ptr();
    let op = Unsubmitted::write_at(&fd, buf, 0);
    assert_eq!(
        op.submission(),
        Submission { opcode: Opcode::Write, fd: 3, addr, len: 128, offset: 0, buf_index: 0 }
    );
    let (n, buf) = op.complete_with(128).ok().unwrap();
    assert_eq!(n, 128);
    let back = buf.try_into_vec().ok().unwrap();
    assert_eq!(back, vec![1u8; 128]);
}

#[test]
fn read_into_two_regions_then_completion_with_partial_count() {
    let fd = SharedFd::new(4);
    let buf = Buffer::from(vec![vec![0u8; 64], vec![0u8; 64]]);
    let list = buf.stable_ptr();
    let op = Unsubmitted::read_at(&fd, buf, 0);
    assert_eq!(
        op.submission(),
        Submission { opcode: Opcode::Readv, fd: 4, addr: list, len: 2, offset: 0, buf_index: 0 }
    );
    let (n, buf) = op.complete_with(100).ok().unwrap();
    assert_eq!(n, 100);
    assert_eq!(buf[0].len(), 64);
    assert_eq!(buf[1].len(), 36);
    assert_eq!(buf.bytes_init(), 100);
}

#[test]
fn external_buffer_fails_conversion_and_stays_usable() {
    let buf = Buffer::from_raw_parts(0x7000, 24);
    let buf = buf.try_into_vec().err().unwrap();
    assert_eq!(buf.len(), 1);
    assert_eq!(buf.bytes_init(), 24);
    assert_eq!(buf.provenance(0), Some(Provenance::External));
    assert_eq!(buf.descriptor(0), Some((0x7000, 24)));
}

#[test]
fn failed_write_returns_buffer_and_broken_pipe() {
    let fd = SharedFd::new(5);
    let buf = Buffer::from(vec![7u8; 16]);
    let addr = buf.stable_ptr();
    let op = Unsubmitted::write_at(&fd, buf, 9);
    let err = op.complete_with(-32).err().unwrap();
    assert_eq!(err.code, 32);
    assert_eq!(err.io_error().kind(), ErrorKind::BrokenPipe);
    assert_eq!(err.io_error().raw_os_error(), Some(32));
    let buf = err.into_inner();
    assert_eq!(buf.stable_ptr(), addr);
    assert_eq!(buf.bytes_init(), 16);
    assert_eq!(buf.try_into_vec().ok().unwrap(), vec![7u8; 16]);
}

#[test]
fn failed_read_returns_buffer_filled_to_capacity() {
    let fd = SharedFd::new(5);
    let mut v = Vec::with_capacity(32);
    v.extend_from_slice(&[1u8, 2, 3]);
    let cap = v.capacity();
    let op = Unsubmitted::read_at(&fd, Buffer::from(v), 0);
    let err = op.complete_with(-11).err().unwrap();
    assert_eq!(err.code, 11);
    assert_eq!(err.io_error().kind(), ErrorKind::WouldBlock);
    assert_eq!(err.buf.bytes_init(), cap);
    assert_eq!(&err.buf[0][..3], &[1u8, 2, 3][..]);
}

#[test]
fn write_of_several_regions_is_vectored() {
    let fd = SharedFd::new(6);
    let buf = Buffer::from(vec![vec![1u8; 10], vec![2u8; 20], vec![3u8; 30]]);
    let list = buf.stable_ptr();
    let op = Unsubmitted::write_at(&fd, buf, 77);
    assert_eq!(
        op.submission(),
        Submission { opcode: Opcode::Writev, fd: 6, addr: list, len: 3, offset: 77, buf_index: 0 }
    );
    let (n, buf) = op.complete_with(15).ok().unwrap();
    assert_eq!(n, 15);
    assert_eq!(buf[0].len(), 10);
    assert_eq!(buf[1].len(), 20);
    assert_eq!(buf[2].len(), 30);
}

#[test]
fn read_of_one_region_asks_for_its_capacity() {
    let fd = SharedFd::new(8);
    let mut v = Vec::with_capacity(256);
    v.push(1u8);
    let cap = v.capacity();
    let buf = Buffer::from(v);
    let addr = buf.stable_ptr();
    let op = Unsubmitted::read_at(&fd, buf, 4096);
    assert_eq!(
        op.submission(),
        Submission { opcode: Opcode::Read, fd: 8, addr, len: cap as u32, offset: 4096, buf_index: 0 }
    );
    let (n, buf) = op.complete_with(0).ok().unwrap();
    assert_eq!(n, 0);
    assert_eq!(buf.bytes_init(), 0);
    assert_eq!(buf.try_into_vec().ok().unwrap(), Vec::<u8>::new());
}

#[test]
fn read_count_past_the_first_region_spills_into_the_next() {
    let fd = SharedFd::new(8);
    let buf = Buffer::from(vec![vec![0u8; 8], vec![0u8; 8]]);
    let (n, buf) = Unsubmitted::read_at(&fd, buf, 0).complete_with(9).ok().unwrap();
    assert_eq!(n, 9);
    assert_eq!(buf[0].len(), 8);
    assert_eq!(buf[1].len(), 1);
    assert_eq!(buf.try_into_vecs().ok().unwrap(), vec![vec![0u8; 8], vec![0u8; 1]]);
}

#[test]
fn entries_carry_the_opcode_of_the_descriptor() {
    let sub = |opcode| Submission { opcode, fd: 1, addr: 0x1000, len: 8, offset: 0, buf_index: 2 };
    let shown = |opcode| format!("{:?}", sub(opcode).entry());
    assert!(shown(Opcode::Readv).contains("op_code: 1,"));
    assert!(shown(Opcode::Writev).contains("op_code: 2,"));
    assert!(shown(Opcode::ReadFixed).contains("op_code: 4,"));
    assert!(shown(Opcode::WriteFixed).contains("op_code: 5,"));
    assert!(shown(Opcode::Read).contains("op_code: 22,"));
    assert!(shown(Opcode::Write).contains("op_code: 23,"));
}

#[test]
fn operation_builds_the_entry_of_its_descriptor() {
    let fd = SharedFd::new(2);
    let one = Unsubmitted::read_at(&fd, Buffer::from(vec![0u8; 4]), 0);
    assert!(format!("{:?}", one.entry()).contains("op_code: 22,"));
    let two = Unsubmitted::read_at(&fd, Buffer::from(vec![vec![0u8; 4], vec![0u8; 4]]), 0);
    assert!(format!("{:?}", two.entry()).contains("op_code: 1,"));
    let three = Unsubmitted::write_at(&fd, Buffer::from(vec![vec![0u8; 4], vec![0u8; 4]]), 0);
    assert!(format!("{:?}", three.entry()).contains("op_code: 2,"));
}

#[test]
fn generic_write_sends_the_initialized_bytes() {
    let fd = SharedFd::new(10);
    let mut v = Vec::with_capacity(64);
    v.extend_from_slice(b"hello world");
    let buf = Buffer::from(v);
    let addr = buf.stable_ptr();
    let op = UnsubmittedWrite::write_at(&fd, buf, 0);
    assert_eq!(
        op.submission(),
        Submission { opcode: Opcode::Write, fd: 10, addr, len: 11, offset: 0, buf_index: 0 }
    );
    let (n, buf) = op.complete_with(11).ok().unwrap();
    assert_eq!(n, 11);
    assert_eq!(buf.try_into_vec().ok().unwrap(), b"hello world".to_vec());
}

#[test]
fn generic_write_failure_keeps_the_buffer() {
    let fd = SharedFd::new(10);
    let op = UnsubmittedWrite::write_at(&fd, Buffer::from(vec![1u8, 2, 3]), 0);
    let err = op.complete_with(-9).err().unwrap();
    assert_eq!(err.code, 9);
    assert_eq!(err.into_inner().try_into_vec().ok().unwrap(), vec![1u8, 2, 3]);
}

#[test]
fn generic_read_sets_the_initialized_length() {
    let fd = SharedFd::new(11);
    let mut v = Vec::with_capacity(64);
    v.extend_from_slice(&[9u8; 10]);
    let cap = v.capacity();
    let buf = Buffer::from(v);
    let addr = buf.stable_ptr();
    let op = UnsubmittedRead::read_at(&fd, buf, 512);
    assert_eq!(
        op.submission(),
        Submission { opcode: Opcode::Read, fd: 11, addr, len: cap as u32, offset: 512, buf_index: 0 }
    );
    let (n, buf) = op.complete_with(4).ok().unwrap();
    assert_eq!(n, 4);
    assert_eq!(buf.bytes_init(), 4);
    assert_eq!(buf.try_into_vec().ok().unwrap(), vec![9u8; 4]);
}

#[test]
fn generic_read_failure_leaves_the_buffer_as_it_was() {
    let fd = SharedFd::new(11);
    let op = UnsubmittedRead::read_at(&fd, Buffer::from(vec![5u8; 6]), 0);
    let err = op.complete_with(-5).err().unwrap();
    assert_eq!(err.code, 5);
    assert_eq!(err.buf.bytes_init(), 6);
}

#[test]
fn fixed_operations_carry_the_pool_index() {
    let fd = SharedFd::new(12);
    let fixed = FixedBuf::new(Buffer::from(vec![0u8; 32]), 7);
    let addr = fixed.stable_ptr();
    let op = UnsubmittedRead::read_fixed_at(&fd, fixed, 64);
    assert_eq!(
        op.submission(),
        Submission { opcode: Opcode::ReadFixed, fd: 12, addr, len: 32, offset: 64, buf_index: 7 }
    );
    let (n, fixed) = op.complete_with(20).ok().unwrap();
    assert_eq!(n, 20);
    assert_eq!(fixed.bytes_init(), 20);

    let op = UnsubmittedWrite::write_fixed_at(&fd, fixed, 0);
    assert_eq!(
        op.submission(),
        Submission { opcode: Opcode::WriteFixed, fd: 12, addr, len: 20, offset: 0, buf_index: 7 }
    );
    let (n, fixed) = op.complete_with(20).ok().unwrap();
    assert_eq!(n, 20);
    assert_eq!(fixed.into_inner().try_into_vec().ok().unwrap(), vec![0u8; 20]);
}

#[test]
fn fixed_operations_with_an_explicit_index() {
    let fd = SharedFd::new(13);
    let buf = Buffer::from(vec![1u8; 8]);
    let addr = buf.stable_ptr();
    let op = UnsubmittedWrite::write_fixed_at_with_index(&fd, buf, 3, 5);
    assert_eq!(
        op.submission(),
        Submission { opcode: Opcode::WriteFixed, fd: 13, addr, len: 8, offset: 5, buf_index: 3 }
    );
    let (_, buf) = op.complete_with(8).ok().unwrap();
    let op = UnsubmittedRead::read_fixed_at_with_index(&fd, buf, 4, 6);
    assert_eq!(
        op.submission(),
        Submission { opcode: Opcode::ReadFixed, fd: 13, addr, len: 8, offset: 6, buf_index: 4 }
    );
}

#[test]
fn operations_on_a_view_use_its_range() {
    let fd = SharedFd::new(14);
    let buf = Buffer::from(vec![3u8; 100]);
    let addr = buf.stable_ptr();
    let view = Slice::new(buf, 10, 50).ok().unwrap();
    let op = UnsubmittedRead::read_at(&fd, view, 0);
    assert_eq!(
        op.submission(),
        Submission { opcode: Opcode::Read, fd: 14, addr: addr + 10, len: 40, offset: 0, buf_index: 0 }
    );
    let (n, view) = op.complete_with(25).ok().unwrap();
    assert_eq!(n, 25);
    assert_eq!(view.bytes_init(), 25);
    let buf = view.into_inner();
    assert_eq!(buf.bytes_init(), 35);
}

#[test]
fn operation_keeps_the_descriptor_open() {
    let fd = SharedFd::new(21);
    let op = Unsubmitted::write_at(&fd, Buffer::from(vec![0u8; 4]), 0);
    assert_eq!(fd.into_raw(), None);
    let (data, _transform, sqe) = op.into_parts();
    assert_eq!(sqe.fd, 21);
    drop(data);
}

#[test]
fn os_code_is_the_negated_result() {
    assert_eq!(os_code_of(-1), 1);
    assert_eq!(os_code_of(-32), 32);
    assert_eq!(os_code_of(-i32::MAX), i32::MAX);
    assert_eq!(os_code_of(i32::MIN), i32::MAX);
}

#[test]
fn payload_shows_its_handle_and_buffer() {
    let fd = SharedFd::new(30);
    let op = Unsubmitted::write_at(&fd, Buffer::from(vec![4u8; 12]), 0);
    assert_eq!(op.stored().shared_fd().raw_fd(), 30);
    assert_eq!(op.stored().buffer().bytes_init(), 12);
    let op = UnsubmittedRead::read_at(&fd, Buffer::from(vec![4u8; 12]), 0);
    assert_eq!(op.stored().shared_fd().raw_fd(), 30);
    assert_eq!(op.stored().buffer().bytes_init(), 12);
    let op = UnsubmittedWrite::write_at(&fd, Buffer::from(vec![4u8; 5]), 0);
    assert_eq!(op.stored().shared_fd().raw_fd(), 30);
    assert_eq!(op.stored().buffer().bytes_init(), 5);
}
