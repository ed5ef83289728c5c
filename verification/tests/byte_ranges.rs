use liquid_scan::byte_ranges::{bytes_in_range, bytes_in_ranges};

#[test]
fn a_range_is_booked_with_its_length() {
    assert_eq!(bytes_in_range(&(10..25)), Some(15));
    assert_eq!(bytes_in_range(&(7..7)), Some(0));
}

#[test]
fn a_backward_range_has_no_length() {
    let (start, end) = (9, 8);
    assert_eq!(bytes_in_range(&(start..end)), None);
    assert_eq!(bytes_in_ranges(&[0..4, start..end]), None);
}

#[test]
fn ranges_are_booked_together() {
    assert_eq!(bytes_in_ranges(&[0..4, 10..25, 3..3]), Some(19));
    assert_eq!(bytes_in_ranges(&[]), Some(0));
}

#[test]
fn overlapping_ranges_count_twice() {
    assert_eq!(bytes_in_ranges(&[0..10, 5..15]), Some(20));
}

#[test]
fn one_range_is_booked_alike_alone_and_in_a_list() {
    assert_eq!(bytes_in_ranges(&[100..164]), bytes_in_range(&(100..164)));
}

#[test]
fn a_total_past_the_largest_number_is_refused() {
    assert_eq!(bytes_in_ranges(&[0..u64::MAX]), Some(u64::MAX as usize));
    assert_eq!(bytes_in_ranges(&[0..u64::MAX, 4..5]), None);
}

#[test]
fn two_lists_are_booked_one_after_the_other() {
    let first = bytes_in_ranges(&[0..4, 10..25]).unwrap();
    let second = bytes_in_ranges(&[30..31]).unwrap();
    assert_eq!(bytes_in_ranges(&[0..4, 10..25, 30..31]), Some(first + second));
}
