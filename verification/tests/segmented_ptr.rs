use pxe_first_stage::segmented_ptr::SegmentedPointer;

#[test]
fn from_mut_splits_real_mode_address() {
    let p: SegmentedPointer<u8> = SegmentedPointer::from_mut(0x7c00);
    assert_eq!(p.segment(), 0x07c0);
    assert_eq!(p.offset(), 0x00);
    assert_eq!(p.as_ptr(), 0x7c00);
}

#[test]
fn from_mut_keeps_low_byte_in_offset() {
    let p: SegmentedPointer<u16> = SegmentedPointer::from_mut(0x12345);
    assert_eq!(p.segment(), 0x1230);
    assert_eq!(p.offset(), 0x45);
    assert_eq!(p.as_ptr(), 0x12345);
}

#[test]
fn from_mut_wraps_at_one_mebibyte() {
    let p: SegmentedPointer<u8> = SegmentedPointer::from_mut(0x0012_3456);
    assert_eq!(p.segment(), 0x2340);
    assert_eq!(p.offset(), 0x56);
    assert_eq!(p.as_ptr(), 0x2_3456);
}

#[test]
fn from_mut_highest_real_mode_address() {
    let p: SegmentedPointer<u8> = SegmentedPointer::from_mut(0xf_ffff);
    assert_eq!(p.segment(), 0xfff0);
    assert_eq!(p.offset(), 0xff);
    assert_eq!(p.as_ptr(), 0xf_ffff);
}

#[test]
fn from_mut_zero() {
    let p: SegmentedPointer<u8> = SegmentedPointer::from_mut(0);
    assert_eq!((p.segment(), p.offset(), p.as_ptr()), (0, 0, 0));
}

#[test]
fn new_keeps_its_parts() {
    let p: SegmentedPointer<u8> = SegmentedPointer::new(0x1234, 0xabcd);
    assert_eq!(p.offset(), 0x1234);
    assert_eq!(p.segment(), 0xabcd);
}

#[test]
fn as_ptr_is_segment_times_sixteen_plus_offset() {
    let p: SegmentedPointer<u8> = SegmentedPointer::new(0xffff, 0xffff);
    assert_eq!(p.as_ptr(), 0x10_ffef);
    let p: SegmentedPointer<u8> = SegmentedPointer::new(0x0010, 0x07c0);
    assert_eq!(p.as_ptr(), 0x7c10);
}

#[test]
fn as_ptr_mut_agrees_with_as_ptr() {
    let mut p: SegmentedPointer<u8> = SegmentedPointer::new(0x0106, 0x9e00);
    let a = p.as_ptr();
    assert_eq!(p.as_ptr_mut(), a);
    assert_eq!(a, 0x9e106);
    assert_eq!((p.offset(), p.segment()), (0x0106, 0x9e00));
}

#[test]
fn normalized_pointer_round_trips() {
    let p: SegmentedPointer<u8> = SegmentedPointer::new(0x7f, 0x5430);
    let q: SegmentedPointer<u8> = SegmentedPointer::from_mut(p.as_ptr());
    assert_eq!((q.offset(), q.segment()), (0x7f, 0x5430));
}
