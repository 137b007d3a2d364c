use meowith_connector::range::{construct_pagination_query, DownloadRange, Range};

#[test]
fn pagination_absent_range_is_empty() {
    assert_eq!(construct_pagination_query(None), "");
}

#[test]
fn pagination_both_bounds() {
    let q = construct_pagination_query(Some(Range { start: Some(0), end: Some(9) }));
    assert_eq!(q, "?start=0&end=9");
}

#[test]
fn pagination_start_only_keeps_trailing_dash() {
    let q = construct_pagination_query(Some(Range { start: Some(20), end: None }));
    assert_eq!(q, "?start=20-");
}

#[test]
fn pagination_end_only() {
    let q = construct_pagination_query(Some(Range { start: None, end: Some(15) }));
    assert_eq!(q, "?end=15");
}

#[test]
fn pagination_no_bounds_is_empty() {
    let q = construct_pagination_query(Some(Range { start: None, end: None }));
    assert_eq!(q, "");
}

#[test]
fn pagination_negative_and_extreme_bounds() {
    let q = construct_pagination_query(Some(Range { start: Some(-5), end: Some(i32::MAX) }));
    assert_eq!(q, "?start=-5&end=2147483647");
    let q = construct_pagination_query(Some(Range { start: Some(i32::MIN), end: None }));
    assert_eq!(q, "?start=-2147483648-");
}

#[test]
fn header_value_both_bounds() {
    assert_eq!(DownloadRange::new(Some(100), Some(199)).header_value(), "bytes=100-199");
}

#[test]
fn header_value_start_only() {
    assert_eq!(DownloadRange::new(Some(512), None).header_value(), "bytes=512-");
}

#[test]
fn header_value_end_only() {
    assert_eq!(DownloadRange::new(None, Some(499)).header_value(), "bytes=-499");
}

#[test]
fn header_value_full_asks_from_zero() {
    let r = DownloadRange::full();
    assert!(r.is_full());
    assert_eq!(r.header_value(), "bytes=0-");
}

#[test]
fn header_value_largest_offset() {
    assert_eq!(DownloadRange::new(Some(0), Some(u64::MAX)).header_value(), "bytes=0-18446744073709551615");
}

#[test]
fn is_full_only_without_bounds() {
    assert!(!DownloadRange::new(Some(0), None).is_full());
    assert!(!DownloadRange::new(None, Some(0)).is_full());
    assert!(DownloadRange::new(None, None).is_full());
}
