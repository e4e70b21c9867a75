use kiss_ui::attrs::{
    bool_yes_no, size_pixels, ACTIVE, NAME, NO, POSITION, RASTERSIZE, UTF8_MODE, VISIBLE, YES,
};

#[test]
fn attribute_names_are_the_toolkit_s() {
    assert_eq!(VISIBLE, "VISIBLE");
    assert_eq!(ACTIVE, "ACTIVE");
    assert_eq!(POSITION, "POSITION");
    assert_eq!(NAME, "NAME");
    assert_eq!(RASTERSIZE, "RASTERSIZE");
    assert_eq!(UTF8_MODE, "UTF8MODE");
}

#[test]
fn booleans_are_yes_and_no() {
    assert_eq!(bool_yes_no(true), "YES");
    assert_eq!(bool_yes_no(false), "NO");
    assert_eq!(bool_yes_no(true), YES);
    assert_eq!(bool_yes_no(false), NO);
    assert_ne!(bool_yes_no(true), bool_yes_no(false));
}

#[test]
fn size_keeps_dimensions_that_are_not_negative() {
    assert_eq!(size_pixels(0, 0), (0, 0));
    assert_eq!(size_pixels(640, 480), (640, 480));
    assert_eq!(size_pixels(i32::MAX, 1), (2147483647, 1));
}

#[test]
fn size_reads_a_negative_dimension_as_its_bit_pattern() {
    assert_eq!(size_pixels(-1, 5), (u32::MAX, 5));
    assert_eq!(size_pixels(5, i32::MIN), (5, 2147483648));
}

#[test]
fn boolean_values_are_accepted_as_text() {
    assert!(kiss_ui::text::is_nul_free(bool_yes_no(true)));
    assert!(kiss_ui::text::is_nul_free(bool_yes_no(false)));
}
