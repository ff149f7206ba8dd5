use uring_core::buf::{Buffer, FixedBuf, IoBuf, IoBufMut, Registered, Slice};

#[test]
fn view_restricts_address_and_capacity() {
    let mut v = Vec::with_capacity(64);
    v.extend_from_slice(&[1u8; 20]);
    let buf = Buffer::from(v);
    let base = buf.stable_ptr();
    let mut view = Slice::new(buf, 8, 32).ok().unwrap();
    assert_eq!(view.begin(), 8);
    assert_eq!(view.end(), 32);
    assert_eq!(view.stable_ptr(), base + 8);
    assert_eq!(view.stable_mut_ptr(), base + 8);
    assert_eq!(view.bytes_total(), 24);
    assert_eq!(view.bytes_init(), 12);
    assert_eq!(view.get_ref().bytes_init(), 20);
}

#[test]
fn view_reports_only_initialized_bytes_inside_it() {
    let mut v = Vec::with_capacity(64);
    v.extend_from_slice(&[1u8; 20]);
    let cap = v.capacity();
    let view = Slice::new(Buffer::from(v), 30, 40).ok().unwrap();
    assert_eq!(view.bytes_init(), 0);
    let buf = view.into_inner();
    let view = Slice::new(buf, 0, 10).ok().unwrap();
    assert_eq!(view.bytes_init(), 10);
    let buf = view.into_inner();
    let view = Slice::new(buf, 20, cap).ok().unwrap();
    assert_eq!(view.bytes_init(), 0);
    assert_eq!(view.bytes_total(), cap - 20);
}

#[test]
fn view_out_of_range_is_refused_with_the_buffer() {
    let buf = Buffer::from(vec![0u8; 16]);
    let cap = buf.bytes_total();
    let buf = Slice::new(buf, 9, 8).err().unwrap();
    assert_eq!(buf.bytes_init(), 16);
    let buf = Slice::new(buf, 0, cap + 1).err().unwrap();
    assert_eq!(buf.bytes_init(), 16);
    let view = Slice::new(buf, cap, cap).ok().unwrap();
    assert_eq!(view.bytes_total(), 0);
    let view = Slice::new(view.into_inner(), 0, cap).ok().unwrap();
    assert_eq!(view.bytes_total(), cap);
}

#[test]
fn view_past_the_address_space_is_refused() {
    let buf = Buffer::from_raw_parts(usize::MAX - 4, 16);
    let buf = Slice::new(buf, 0, 8).err().unwrap();
    let view = Slice::new(buf, 0, 4).ok().unwrap();
    assert_eq!(view.stable_ptr(), usize::MAX - 4);
    assert_eq!(view.bytes_total(), 4);
}

#[test]
fn set_init_through_a_view_is_absolute_on_the_buffer() {
    let buf = Buffer::from(vec![0u8; 100]);
    let mut view = Slice::new(buf, 10, 50).ok().unwrap();
    view.set_init(5);
    assert_eq!(view.bytes_init(), 5);
    assert_eq!(view.get_ref().bytes_init(), 15);
    view.set_init(1000);
    assert_eq!(view.bytes_init(), 40);
    assert_eq!(view.get_ref().bytes_init(), 50);
    view.set_init(0);
    assert_eq!(view.bytes_init(), 0);
    let buf = view.into_inner();
    assert_eq!(buf.bytes_init(), 10);
    assert_eq!(buf.bytes_total(), 100);
}

#[test]
fn view_of_a_registered_buffer_keeps_the_index() {
    let fixed = FixedBuf::new(Buffer::from(vec![0u8; 32]), 9);
    assert_eq!(fixed.buf_index(), 9);
    let mut view = Slice::new(fixed, 4, 12).ok().unwrap();
    assert_eq!(view.buf_index(), 9);
    view.set_init(3);
    let fixed = view.into_inner();
    assert_eq!(fixed.buf_index(), 9);
    assert_eq!(fixed.bytes_init(), 7);
    assert_eq!(fixed.bytes_total(), 32);
}
