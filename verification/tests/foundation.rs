use gpui_ios::foundation::{
    cg_point_encoding, cg_rect_encoding, cg_size_encoding, ns_range_encoding, NSRange,
};

#[test]
fn range_goes_there_and_back() {
    for range in [0..0, 3..7, 0..usize::MAX, usize::MAX - 1..usize::MAX] {
        assert_eq!(NSRange::from(range.clone()).to_range(), Some(range));
    }
}

#[test]
fn range_is_start_and_length() {
    assert_eq!(NSRange::from(3..7), NSRange { location: 3, length: 4 });
}

#[test]
fn backward_range_is_empty() {
    let start = 7;
    assert_eq!(NSRange::from(start..3), NSRange { location: 7, length: 0 });
    assert_eq!(NSRange::from(start..3).to_range(), Some(7..7));
}

#[test]
fn missing_range_is_no_range() {
    assert_eq!(NSRange::invalid(), NSRange { location: usize::MAX, length: 0 });
    assert!(!NSRange::invalid().is_valid());
    assert_eq!(NSRange::invalid().to_range(), None);
    assert!(NSRange { location: 0, length: 0 }.is_valid());
}

#[test]
fn range_at_the_end_of_numbers_counts_as_missing() {
    assert_eq!(NSRange::from(usize::MAX..usize::MAX).to_range(), None);
}

#[test]
fn encodings_are_those_of_the_runtime() {
    assert_eq!(ns_range_encoding("Q"), "{NSRange=QQ}");
    assert_eq!(cg_point_encoding(), "{CGPoint=dd}");
    assert_eq!(cg_size_encoding(), "{CGSize=dd}");
    assert_eq!(
        cg_rect_encoding(),
        format!("{{CGRect={}{}}}", cg_point_encoding(), cg_size_encoding())
    );
}
