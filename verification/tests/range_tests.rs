use subproc::range::parse_range;

#[test]
fn test_parse_range_dash() {
    let range = parse_range("0-3").unwrap();
    assert_eq!(range, vec![0, 1, 2, 3]);
    let range = parse_range("7-7").unwrap();
    assert_eq!(range, vec![7]);
    // A first bound above the second gives an empty range.
    let range = parse_range("5-2").unwrap();
    assert!(range.is_empty());
    // Only the token up to the second dash counts as the end bound.
    let range = parse_range("0-2-9").unwrap();
    assert_eq!(range, vec![0, 1, 2]);
    // The largest value is an ordinary bound.
    let range = parse_range("18446744073709551615-18446744073709551615").unwrap();
    assert_eq!(range, vec![u64::MAX]);
}

#[test]
fn test_parse_range_commas() {
    let range = parse_range("0,1,2,3").unwrap();
    assert_eq!(range, vec![0, 1, 2, 3]);
    let range = parse_range("42").unwrap();
    assert_eq!(range, vec![42]);
}

#[test]
fn test_parse_range_errors() {
    assert_eq!(parse_range("x-3").err(), Some("invalid range: start is not a number"));
    assert_eq!(parse_range("3-x").err(), Some("invalid range: end is not a number"));
    assert_eq!(parse_range("3-").err(), Some("invalid range: end is not a number"));
    assert_eq!(parse_range("1,2,x").err(), Some("invalid range values: not a number"));
    assert_eq!(parse_range("1,,2").err(), Some("invalid range values: not a number"));
    assert_eq!(parse_range("").err(), Some("invalid range values: not a number"));
    // A value beyond the type's range is not a number either.
    assert_eq!(
        parse_range("99999999999999999999").err(),
        Some("invalid range values: not a number")
    );
}

#[test]
fn test_unit_value() {
    assert_eq!(<u64 as subproc::range::Unit>::unit(), 1);
    assert_eq!(<usize as subproc::cursor::Unit>::unit(), 1);
}
