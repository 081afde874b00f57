use raytracer::ppm::{encode_ppm, pixel_line, ppm_header, scan_position, Rgb8};

fn text(bytes: Vec<u8>) -> String {
    String::from_utf8(bytes).unwrap()
}

#[test]
fn header_of_wide_image() {
    assert_eq!(text(ppm_header(400, 225)), "P3\n400 225\n255\n");
}

#[test]
fn header_of_single_pixel() {
    assert_eq!(text(ppm_header(1, 1)), "P3\n1 1\n255\n");
}

#[test]
fn header_of_largest_size() {
    assert_eq!(text(ppm_header(u32::MAX, 0)), "P3\n4294967295 0\n255\n");
}

#[test]
fn pixel_line_digits() {
    assert_eq!(text(pixel_line(Rgb8 { r: 0, g: 128, b: 255 })), "0 128 255\n");
    assert_eq!(text(pixel_line(Rgb8 { r: 9, g: 10, b: 99 })), "9 10 99\n");
}

#[test]
fn encode_small_image() {
    let pixels = vec![
        Rgb8 { r: 255, g: 0, b: 0 },
        Rgb8 { r: 0, g: 255, b: 0 },
        Rgb8 { r: 0, g: 0, b: 255 },
        Rgb8 { r: 12, g: 34, b: 56 },
    ];
    let out = encode_ppm(2, 2, &pixels).unwrap();
    assert_eq!(text(out), "P3\n2 2\n255\n255 0 0\n0 255 0\n0 0 255\n12 34 56\n");
}

#[test]
fn encode_empty_image() {
    assert_eq!(text(encode_ppm(0, 3, &vec![]).unwrap()), "P3\n0 3\n255\n");
}

#[test]
fn encode_rejects_wrong_pixel_count() {
    let pixels = vec![Rgb8 { r: 1, g: 2, b: 3 }];
    assert_eq!(encode_ppm(2, 1, &pixels), None);
    assert_eq!(encode_ppm(0, 0, &pixels), None);
}

#[test]
fn scan_order_top_row_first() {
    assert_eq!(scan_position(3, 2, 0), (0, 1));
    assert_eq!(scan_position(3, 2, 2), (2, 1));
    assert_eq!(scan_position(3, 2, 3), (0, 0));
    assert_eq!(scan_position(3, 2, 5), (2, 0));
}
