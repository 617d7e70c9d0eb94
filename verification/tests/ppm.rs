use pathtracer::ppm::{header, Pixel};

#[test]
fn pure_red_is_written_as_255_0_0() {
    assert_eq!(Pixel::new(255, 0, 0).ppm_color(), "255 0 0\n");
}

#[test]
fn black_is_written_as_three_zeros() {
    assert_eq!(Pixel::new(0, 0, 0).ppm_color(), "0 0 0\n");
}

#[test]
fn channels_keep_their_order() {
    assert_eq!(Pixel::new(1, 20, 203).ppm_color(), "1 20 203\n");
    assert_eq!(Pixel { red: 203, green: 1, blue: 20 }.ppm_color(), "203 1 20\n");
}

#[test]
fn numerals_have_no_leading_zeros() {
    assert_eq!(Pixel::new(9, 10, 99).ppm_color(), "9 10 99\n");
    assert_eq!(Pixel::new(100, 101, 110).ppm_color(), "100 101 110\n");
}

#[test]
fn every_channel_value_is_written_as_its_decimal_numeral() {
    for value in 0..=255u8 {
        let expected = format!("{} {} {}\n", value, 255 - value, value / 2);
        assert_eq!(Pixel::new(value, 255 - value, value / 2).ppm_color(), expected);
    }
}

#[test]
fn new_pixel_holds_its_channels() {
    let pixel = Pixel::new(12, 34, 56);
    assert_eq!(pixel, Pixel { red: 12, green: 34, blue: 56 });
}

#[test]
fn header_names_format_sizes_and_depth() {
    assert_eq!(header(512, 288), "P3\n512\n288\n255\n");
}

#[test]
fn header_of_a_small_image() {
    assert_eq!(header(2, 2), "P3\n2\n2\n255\n");
    assert_eq!(header(0, 0), "P3\n0\n0\n255\n");
}

#[test]
fn header_writes_negative_sizes_with_a_sign() {
    assert_eq!(header(-1, 7), "P3\n-1\n7\n255\n");
    assert_eq!(header(i16::MAX, i16::MIN), "P3\n32767\n-32768\n255\n");
}

#[test]
fn header_writes_every_size_as_its_decimal_numeral() {
    for size in [-32768i16, -10000, -999, -10, -9, 9, 10, 99, 100, 1000, 9999, 10000, 32767] {
        assert_eq!(header(size, size), format!("P3\n{}\n{}\n255\n", size, size));
    }
}
