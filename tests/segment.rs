use vcmem::segment::{map_request, MapRequest, Segment, MAP_FAILED_ADDR};

#[test]
fn map_request_rounds_length_to_a_page() {
    let req = map_request(0x1000, 10);
    assert_eq!(req, MapRequest { offset: 0x1000, length: 4096 });
}

#[test]
fn unmap_uses_the_rounded_length() {
    let req = map_request(0x1000, 10);
    let mut seg = Segment::mapped(&req, 0x7f00_0000).unwrap();
    assert_eq!(seg.length(), 4096);
    assert_eq!(seg.release(), Some((0x7f00_0000, 4096)));
}

#[test]
fn failed_mapping_gives_no_segment() {
    let req = map_request(0x2000_0000, 8192);
    assert!(Segment::mapped(&req, MAP_FAILED_ADDR).is_none());
}

#[test]
fn release_of_null_segment_is_a_no_op() {
    let mut seg = Segment::new(0, 10);
    assert_eq!(seg.release(), None);
    assert_eq!(seg.base(), 0);
    assert_eq!(seg.length(), 4096);
}

#[test]
fn double_release_unmaps_once() {
    let mut seg = Segment::new(0x4000_0000, 4096);
    assert_eq!(seg.release(), Some((0x4000_0000, 4096)));
    assert_eq!(seg.base(), 0);
    assert_eq!(seg.release(), None);
    assert_eq!(seg.release(), None);
}

#[test]
fn new_segment_rounds_its_length() {
    let seg = Segment::new(0x1234_0000, 4097);
    assert_eq!(seg.base(), 0x1234_0000);
    assert_eq!(seg.length(), 8192);
}
