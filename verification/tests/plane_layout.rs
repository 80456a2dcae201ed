use hwcodec::layout::{layout_from_native, size_of_int};

#[test]
fn layout_of_zero_status_hands_out_the_numbers() {
    let got = layout_from_native(0, [1920, 960], [0, 2073600], 3110400);
    assert_eq!(got, Ok(([1920, 960], [0, 2073600], 3110400)));
}

#[test]
fn layout_of_nonzero_status_is_an_error() {
    assert_eq!(layout_from_native(-22, [0, 0], [0, 0], 0), Err(()));
    assert_eq!(layout_from_native(1, [6, 3], [0, 12], 18), Err(()));
    assert_eq!(layout_from_native(i32::MIN, [6, 3], [0, 12], 18), Err(()));
}

#[test]
fn layout_is_the_same_on_repeated_calls() {
    let first = layout_from_native(0, [64, 64], [0, 4096], 6144);
    let second = layout_from_native(0, [64, 64], [0, 4096], 6144);
    assert_eq!(first, second);
    assert_eq!(first.unwrap().1[0], 0);
}

#[test]
fn layout_wraps_negative_numbers() {
    let got = layout_from_native(0, [-1, 0], [0, i32::MIN], i32::MAX).unwrap();
    assert_eq!(got.0, [usize::MAX, 0]);
    assert_eq!(got.1, [0, usize::MAX - 2147483647]);
    assert_eq!(got.2, 2147483647);
}

#[test]
fn size_of_int_values() {
    assert_eq!(size_of_int(0), 0);
    assert_eq!(size_of_int(12), 12);
    assert_eq!(size_of_int(i32::MAX), 2147483647);
    assert_eq!(size_of_int(-1), usize::MAX);
    assert_eq!(size_of_int(-2), usize::MAX - 1);
    assert_eq!(size_of_int(i32::MIN), (i32::MIN as isize) as usize);
}
