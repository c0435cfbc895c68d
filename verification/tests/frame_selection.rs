use guiorder::frame_selection::{format_with_commas, FrameSelectionParams};
use guiorder::scalar::Scalar;

#[test]
fn frame_selection_defaults() {
    let params = FrameSelectionParams::default();
    assert_eq!(params.begin.to_bits(), 0.0f32.to_bits());
    assert_eq!(params.end.to_bits(), f32::INFINITY.to_bits());
    assert_eq!(params.step, 1);

    let params = FrameSelectionParams::new(
        Scalar::from_bits(100.0f32.to_bits()),
        Scalar::from_bits(2000.0f32.to_bits()),
        5,
    );
    assert_eq!(f32::from_bits(params.begin.to_bits()), 100.0);
    assert_eq!(f32::from_bits(params.end.to_bits()), 2000.0);
    assert_eq!(params.step, 5);
}

#[test]
fn end_leaves_infinity_when_dragged() {
    let params = FrameSelectionParams::default();
    assert!(params.end_leaves_infinity(true));
    assert!(!params.end_leaves_infinity(false));
    let params = FrameSelectionParams { end: Scalar::from_bits(5000.0f32.to_bits()), ..params };
    assert!(!params.end_leaves_infinity(true));
}

#[test]
fn numbers_are_written_in_groups_of_three() {
    assert_eq!(format_with_commas(""), "");
    assert_eq!(format_with_commas("0"), "0");
    assert_eq!(format_with_commas("12"), "12");
    assert_eq!(format_with_commas("123"), "123");
    assert_eq!(format_with_commas("1234"), "1 234");
    assert_eq!(format_with_commas("100000"), "100 000");
    assert_eq!(format_with_commas("1234567"), "1 234 567");
    assert_eq!(format_with_commas("123456789012"), "123 456 789 012");
    assert_eq!(format_with_commas("inf"), "inf");
}

#[test]
fn decimal_part_is_kept_as_it_is() {
    assert_eq!(format_with_commas("1234.5"), "1 234.5");
    assert_eq!(format_with_commas("1234567.891234"), "1 234 567.891234");
    assert_eq!(format_with_commas("0.25"), "0.25");
    assert_eq!(format_with_commas(".5"), ".5");
    assert_eq!(format_with_commas("1500."), "1 500");
    // what stands behind a second full stop is dropped
    assert_eq!(format_with_commas("1234.5.6"), "1 234.5");
    assert_eq!(format_with_commas("1234..6"), "1 234");
}

#[test]
fn the_sign_counts_as_a_character_of_the_integer_part() {
    assert_eq!(format_with_commas("-12"), "-12");
    assert_eq!(format_with_commas("-123"), "- 123");
    assert_eq!(format_with_commas("-1234.5"), "-1 234.5");
}

#[test]
fn numbers_of_the_machine_are_written_in_groups_of_three() {
    assert_eq!(format_with_commas(&100000.0f64.to_string()), "100 000");
    assert_eq!(format_with_commas(&2500.5f64.to_string()), "2 500.5");
    assert_eq!(format_with_commas(&1234567u64.to_string()), "1 234 567");
}
