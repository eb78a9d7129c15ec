use rpi_led_matrix::rgbmatrix_mock::{
    draw_circle, draw_line, draw_text, led_canvas_clear, led_canvas_fill, led_canvas_get_size,
    led_canvas_set_pixel, led_matrix_create_from_options, led_matrix_create_offscreen_canvas,
    led_matrix_get_canvas, led_matrix_swap_on_vsync, load_font, vertical_draw_text, FakeCanvas,
    FakeMatrix,
};
use rpi_led_matrix::LedMatrixOptions;

fn size_of(canvas: &FakeCanvas) -> (i32, i32) {
    let (mut width, mut height) = (0, 0);
    led_canvas_get_size(canvas, &mut width, &mut height);
    (width, height)
}

#[test]
fn default_canvas_is_64_by_32() {
    let canvas = FakeCanvas::default();
    assert_eq!(canvas.width, 64);
    assert_eq!(canvas.height, 32);
}

#[test]
fn default_matrix_has_its_canvas_on_show_and_none_off_screen() {
    let matrix = FakeMatrix::default();
    assert_eq!(matrix.main_canvas.width, 64);
    assert_eq!(matrix.main_canvas.height, 32);
    assert!(matrix.offscreen_canvas.is_none());
}

#[test]
fn create_gives_a_default_matrix() {
    let matrix = led_matrix_create_from_options(&LedMatrixOptions::new()).unwrap();
    assert_eq!(matrix.main_canvas.width, 64);
    assert_eq!(matrix.main_canvas.height, 32);
    assert!(matrix.offscreen_canvas.is_none());
}

#[test]
fn get_canvas_gives_the_canvas_on_show() {
    let matrix = FakeMatrix {
        main_canvas: FakeCanvas { width: 7, height: 9 },
        offscreen_canvas: None,
    };
    let canvas = led_matrix_get_canvas(&matrix);
    assert_eq!((canvas.width, canvas.height), (7, 9));
}

#[test]
fn get_size_writes_width_and_height() {
    assert_eq!(size_of(&FakeCanvas::default()), (64, 32));
    assert_eq!(size_of(&FakeCanvas { width: 0, height: 1 }), (0, 1));
    assert_eq!(size_of(&FakeCanvas { width: 2147483647, height: 5 }), (2147483647, 5));
}

#[test]
fn get_size_cuts_a_size_to_a_c_int() {
    assert_eq!(size_of(&FakeCanvas { width: 2147483648, height: 4294967295 }), (-2147483648, -1));
}

#[test]
fn create_offscreen_canvas_puts_a_default_canvas_off_screen() {
    let mut matrix = FakeMatrix {
        main_canvas: FakeCanvas { width: 7, height: 9 },
        offscreen_canvas: Some(FakeCanvas { width: 1, height: 2 }),
    };
    let canvas = led_matrix_create_offscreen_canvas(&mut matrix);
    assert_eq!((canvas.width, canvas.height), (64, 32));
    let kept = matrix.offscreen_canvas.unwrap();
    assert_eq!((kept.width, kept.height), (64, 32));
    assert_eq!((matrix.main_canvas.width, matrix.main_canvas.height), (7, 9));
}

#[test]
fn swap_on_vsync_gives_the_canvas_back() {
    let matrix = FakeMatrix::default();
    let back = led_matrix_swap_on_vsync(&matrix, FakeCanvas { width: 3, height: 4 });
    assert_eq!((back.width, back.height), (3, 4));
}

#[test]
fn load_font_gives_a_zero_byte() {
    assert_eq!(load_font("10x20.bdf"), Some(Box::new(0)));
    assert_eq!(load_font(""), Some(Box::new(0)));
}

#[test]
fn drawing_changes_no_canvas() {
    let mut canvas = FakeCanvas { width: 3, height: 4 };
    led_canvas_set_pixel(&mut canvas, 1, 2, 255, 0, 0);
    led_canvas_clear(&mut canvas);
    led_canvas_fill(&mut canvas, 0, 255, 0);
    draw_circle(&mut canvas, 1, 1, 1, 0, 0, 255);
    draw_line(&mut canvas, 0, 0, 2, 3, 9, 9, 9);
    assert_eq!((canvas.width, canvas.height), (3, 4));
}

#[test]
fn text_is_not_drawn_and_advances_by_nothing() {
    let mut canvas = FakeCanvas::default();
    let font = load_font("10x20.bdf").unwrap();
    assert_eq!(draw_text(&mut canvas, &font, 0, 16, 0, 127, 0, "Mah boy! ", 0), 0);
    assert_eq!(vertical_draw_text(&mut canvas, &font, 0, 16, 0, 127, 0, "Mah boy! ", 0), 0);
    assert_eq!((canvas.width, canvas.height), (64, 32));
}
