use embedded_graphics::pixelcolor::{
    Bgr555, Bgr565, Bgr888, Gray2, Gray4, Gray8, Rgb555, Rgb565, Rgb888,
};
use rpi_led_matrix::led_color::widen;
use rpi_led_matrix::LedColor;

fn channels(color: LedColor) -> (u8, u8, u8) {
    (color.red, color.green, color.blue)
}

#[test]
fn widen_moves_a_level_to_the_top_of_the_byte() {
    assert_eq!(widen(31, 3), 248);
    assert_eq!(widen(63, 2), 252);
    assert_eq!(widen(3, 6), 192);
    assert_eq!(widen(15, 4), 240);
    assert_eq!(widen(1, 7), 128);
    assert_eq!(widen(0, 5), 0);
}

#[test]
fn widen_by_nothing_keeps_the_level() {
    assert_eq!(widen(0, 0), 0);
    assert_eq!(widen(173, 0), 173);
    assert_eq!(widen(255, 0), 255);
}

#[test]
fn widen_drops_what_passes_the_top() {
    assert_eq!(widen(255, 3), 248);
    assert_eq!(widen(32, 3), 0);
    assert_eq!(widen(33, 3), 8);
    assert_eq!(widen(255, 7), 128);
    assert_eq!(widen(254, 7), 0);
}

#[test]
fn rgb565_widens_five_six_five() {
    assert_eq!(channels(LedColor::from(Rgb565::new(31, 63, 31))), (248, 252, 248));
    assert_eq!(channels(LedColor::from(Rgb565::new(1, 1, 1))), (8, 4, 8));
    assert_eq!(channels(LedColor::from(Rgb565::new(17, 33, 5))), (136, 132, 40));
    assert_eq!(channels(LedColor::from(Rgb565::new(0, 0, 0))), (0, 0, 0));
}

#[test]
fn bgr565_widens_five_six_five() {
    assert_eq!(channels(LedColor::from(Bgr565::new(31, 63, 31))), (248, 252, 248));
    assert_eq!(channels(LedColor::from(Bgr565::new(17, 33, 5))), (136, 132, 40));
    assert_eq!(channels(LedColor::from(Bgr565::new(0, 62, 30))), (0, 248, 240));
}

#[test]
fn rgb555_widens_every_channel_by_three() {
    assert_eq!(channels(LedColor::from(Rgb555::new(31, 31, 31))), (248, 248, 248));
    assert_eq!(channels(LedColor::from(Rgb555::new(1, 2, 3))), (8, 16, 24));
    assert_eq!(channels(LedColor::from(Rgb555::new(16, 0, 21))), (128, 0, 168));
}

#[test]
fn bgr555_widens_every_channel_by_three() {
    assert_eq!(channels(LedColor::from(Bgr555::new(31, 31, 31))), (248, 248, 248));
    assert_eq!(channels(LedColor::from(Bgr555::new(1, 2, 3))), (8, 16, 24));
    assert_eq!(channels(LedColor::from(Bgr555::new(16, 0, 21))), (128, 0, 168));
}

#[test]
fn rgb888_keeps_every_channel() {
    assert_eq!(channels(LedColor::from(Rgb888::new(255, 254, 253))), (255, 254, 253));
    assert_eq!(channels(LedColor::from(Rgb888::new(1, 2, 3))), (1, 2, 3));
    assert_eq!(channels(LedColor::from(Rgb888::new(0, 127, 0))), (0, 127, 0));
}

#[test]
fn bgr888_keeps_every_channel() {
    assert_eq!(channels(LedColor::from(Bgr888::new(255, 254, 253))), (255, 254, 253));
    assert_eq!(channels(LedColor::from(Bgr888::new(1, 2, 3))), (1, 2, 3));
    assert_eq!(channels(LedColor::from(Bgr888::new(10, 0, 200))), (10, 0, 200));
}

#[test]
fn gray2_moves_luma_up_by_six() {
    assert_eq!(channels(LedColor::from(Gray2::new(0))), (0, 0, 0));
    assert_eq!(channels(LedColor::from(Gray2::new(1))), (64, 64, 64));
    assert_eq!(channels(LedColor::from(Gray2::new(2))), (128, 128, 128));
    assert_eq!(channels(LedColor::from(Gray2::new(3))), (192, 192, 192));
}

#[test]
fn gray4_moves_luma_up_by_four() {
    assert_eq!(channels(LedColor::from(Gray4::new(0))), (0, 0, 0));
    assert_eq!(channels(LedColor::from(Gray4::new(9))), (144, 144, 144));
    assert_eq!(channels(LedColor::from(Gray4::new(15))), (240, 240, 240));
}

#[test]
fn gray8_becomes_every_channel() {
    assert_eq!(channels(LedColor::from(Gray8::new(0))), (0, 0, 0));
    assert_eq!(channels(LedColor::from(Gray8::new(129))), (129, 129, 129));
    assert_eq!(channels(LedColor::from(Gray8::new(255))), (255, 255, 255));
}

#[test]
fn levels_over_the_format_are_masked_before_they_widen() {
    assert_eq!(channels(LedColor::from(Rgb565::new(255, 255, 255))), (248, 252, 248));
    assert_eq!(channels(LedColor::from(Rgb555::new(32, 33, 63))), (0, 8, 248));
    assert_eq!(channels(LedColor::from(Gray2::new(255))), (192, 192, 192));
    assert_eq!(channels(LedColor::from(Gray4::new(16))), (0, 0, 0));
}

#[test]
fn into_gives_the_same_colour_as_from() {
    let by_into: LedColor = Rgb565::new(3, 7, 11).into();
    let by_from = LedColor::from(Rgb565::new(3, 7, 11));
    assert_eq!(channels(by_into), channels(by_from));
    assert_eq!(channels(by_into), (24, 28, 88));
}

#[test]
fn a_colour_is_copied_with_its_channels() {
    let color = LedColor { red: 127, green: 0, blue: 255 };
    let copy = color;
    assert_eq!(channels(copy), (127, 0, 255));
    assert_eq!(channels(color.clone()), (127, 0, 255));
}
