//! A driver that needs no panels: it hands out a matrix and canvases that
//! only have a size, and draws nothing on them. With it the handles can be
//! used away from the hardware.

use crate::options::LedMatrixOptions;
use libc::c_int;
use vstd::prelude::*;

verus! {

/// A canvas without pixels: all it has is its size.
#[derive(Clone, Copy)]
pub struct FakeCanvas {
    pub width: usize,
    pub height: usize,
}

impl FakeCanvas {
    /// The one size this driver knows: 64 wide and 32 high.
    pub open spec fn panel() -> Self {
        FakeCanvas { width: 64, height: 32 }
    }
}

impl Default for FakeCanvas {
    fn default() -> (canvas: Self)
        ensures
            canvas == FakeCanvas::panel(),
    {
        Self { width: 64, height: 32 }
    }
}

/// A matrix without panels: the canvas on show and, once one was asked for,
/// the canvas off screen.
pub struct FakeMatrix {
    pub main_canvas: FakeCanvas,
    pub offscreen_canvas: Option<FakeCanvas>,
}

impl FakeMatrix {
    /// A matrix as it is made: its canvas on show, and none off screen.
    pub open spec fn fresh() -> Self {
        FakeMatrix { main_canvas: FakeCanvas::panel(), offscreen_canvas: None }
    }
}

impl Default for FakeMatrix {
    fn default() -> (matrix: Self)
        ensures
            matrix == FakeMatrix::fresh(),
    {
        FakeMatrix { main_canvas: Default::default(), offscreen_canvas: None }
    }
}

/// Makes a matrix. The options change nothing about it, and it never fails.
pub fn led_matrix_create_from_options(_options: &LedMatrixOptions) -> (matrix: Option<
    Box<FakeMatrix>,
>)
    ensures
        matrix == Some(Box::new(FakeMatrix::fresh())),
{
    let fake_matrix = Box::<FakeMatrix>::new(Default::default());
    Some(fake_matrix)
}

/// The canvas on show.
pub fn led_matrix_get_canvas(matrix: &FakeMatrix) -> (canvas: FakeCanvas)
    ensures
        canvas == matrix.main_canvas,
{
    matrix.main_canvas
}

/// Writes the size of `canvas` to `width` and `height`, each cut to a C `int`.
pub fn led_canvas_get_size(canvas: &FakeCanvas, width: &mut c_int, height: &mut c_int)
    ensures
        *final(width) == canvas.width as c_int,
        *final(height) == canvas.height as c_int,
{
    *width = canvas.width as c_int;
    *height = canvas.height as c_int;
}

/// Draws nothing.
pub fn led_canvas_set_pixel(_canvas: &mut FakeCanvas, _x: c_int, _y: c_int, _r: u8, _g: u8, _b: u8)
    ensures
        *final(_canvas) == *old(_canvas),
{
}

/// Clears nothing.
pub fn led_canvas_clear(_canvas: &mut FakeCanvas)
    ensures
        *final(_canvas) == *old(_canvas),
{
}

/// Fills nothing.
pub fn led_canvas_fill(_canvas: &mut FakeCanvas, _r: u8, _g: u8, _b: u8)
    ensures
        *final(_canvas) == *old(_canvas),
{
}

/// Puts a new canvas off screen, in place of the one that was there, and
/// hands it out.
pub fn led_matrix_create_offscreen_canvas(matrix: &mut FakeMatrix) -> (canvas: FakeCanvas)
    ensures
        canvas == FakeCanvas::panel(),
        *final(matrix) == (FakeMatrix {
            main_canvas: old(matrix).main_canvas,
            offscreen_canvas: Some(canvas),
        }),
{
    let canvas: FakeCanvas = Default::default();
    matrix.offscreen_canvas = Some(canvas);
    canvas
}

/// Hands `canvas` back at once: there is no refresh to wait for.
pub fn led_matrix_swap_on_vsync(_matrix: &FakeMatrix, canvas: FakeCanvas) -> (back: FakeCanvas)
    ensures
        back == canvas,
{
    canvas
}

/// Loads no file: a zero byte stands for the font, whatever the name.
pub fn load_font(_bdf_font_file: &str) -> (font: Option<Box<u8>>)
    ensures
        font == Some(Box::new(0u8)),
{
    let fake_font = Box::<u8>::new(0);
    Some(fake_font)
}

/// Draws nothing, and so advances by nothing.
pub fn draw_text(
    _canvas: &mut FakeCanvas,
    _font: &u8,
    _x: c_int,
    _y: c_int,
    _r: u8,
    _g: u8,
    _b: u8,
    _utf8_text: &str,
    _kerning_offset: c_int,
) -> (advance: c_int)
    ensures
        advance == 0,
        *final(_canvas) == *old(_canvas),
{
    let value: c_int = 0;
    value
}

/// Draws nothing, and so advances by nothing.
pub fn vertical_draw_text(
    _canvas: &mut FakeCanvas,
    _font: &u8,
    _x: c_int,
    _y: c_int,
    _r: u8,
    _g: u8,
    _b: u8,
    _utf8_text: &str,
    _kerning_offset: c_int,
) -> (advance: c_int)
    ensures
        advance == 0,
        *final(_canvas) == *old(_canvas),
{
    let value: c_int = 0;
    value
}

/// Draws nothing.
pub fn draw_circle(
    _canvas: &mut FakeCanvas,
    _x: c_int,
    _y: c_int,
    _radius: c_int,
    _r: u8,
    _g: u8,
    _b: u8,
)
    ensures
        *final(_canvas) == *old(_canvas),
{
}

/// Draws nothing.
pub fn draw_line(
    _canvas: &mut FakeCanvas,
    _x0: c_int,
    _y0: c_int,
    _x1: c_int,
    _y1: c_int,
    _r: u8,
    _g: u8,
    _b: u8,
)
    ensures
        *final(_canvas) == *old(_canvas),
{
}

} // verus!
