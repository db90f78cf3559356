use ray_tracing::color::Color;
use ray_tracing::ppm;
use ray_tracing::text;

#[test]
fn decimal_known_values() {
    assert_eq!(text::u32_to_decimal(0), "0");
    assert_eq!(text::u32_to_decimal(7), "7");
    assert_eq!(text::u32_to_decimal(10), "10");
    assert_eq!(text::u32_to_decimal(255), "255");
    assert_eq!(text::u32_to_decimal(1000), "1000");
    assert_eq!(text::u32_to_decimal(u32::MAX), "4294967295");
}

#[test]
fn header_standard_dimensions() {
    assert_eq!(ppm::header(400, 225), "P3\n400 225\n255\n");
}

#[test]
fn header_tiny_image() {
    assert_eq!(ppm::header(1, 1), "P3\n1 1\n255\n");
}

#[test]
fn pixel_line_white() {
    assert_eq!(ppm::pixel_line(&Color::new(255, 255, 255)), "255 255 255\n");
}

#[test]
fn pixel_line_mixed_channels() {
    assert_eq!(ppm::pixel_line(&Color::new(0, 128, 7)), "0 128 7\n");
}

#[test]
fn image_single_pixel() {
    let pixels = vec![Color::new(255, 255, 255)];
    assert_eq!(ppm::image(1, 1, &pixels), "P3\n1 1\n255\n255 255 255\n");
}

#[test]
fn image_rows_in_order() {
    let pixels = vec![
        Color::new(1, 2, 3),
        Color::new(4, 5, 6),
        Color::new(7, 8, 9),
        Color::new(10, 11, 12),
    ];
    assert_eq!(
        ppm::image(2, 2, &pixels),
        "P3\n2 2\n255\n1 2 3\n4 5 6\n7 8 9\n10 11 12\n"
    );
}

#[test]
fn image_with_no_pixels_is_just_the_header() {
    let pixels = Vec::new();
    assert_eq!(ppm::image(0, 0, &pixels), "P3\n0 0\n255\n");
}
