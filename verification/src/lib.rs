//! Handles for a chain of RGB LED matrix panels, and the colours drawn on it.
//!
//! A `LedMatrix` stands for the panels, a `LedCanvas` for one of the frames
//! that the matrix shows or has in waiting, and a `LedFont` for a font to
//! write on a canvas with. The driver behind the handles is the one of
//! `rgbmatrix_mock`, which needs no hardware.

pub mod c_text;
pub mod led_color;
pub mod options;
pub mod path;
pub mod pixelcolor;
pub mod rgbmatrix_mock;

pub use led_color::LedColor;
pub use options::LedMatrixOptions;

use c_text::{holds_no_nul, is_c_text};
use libc::c_int;
use options::OptionsView;
use path::{path_text, path_to_str};
use rgbmatrix_mock::{FakeCanvas, FakeMatrix};
use std::path::PathBuf;
use vstd::prelude::*;

verus! {

/// A frame of the matrix, to draw on. The driver here keeps no pixels, so
/// drawing leaves a canvas as it was: all that can be read of it is its size.
pub struct LedCanvas {
    handle: FakeCanvas,
}

/// The chain of panels.
pub struct LedMatrix {
    handle: Box<FakeMatrix>,
    _options: LedMatrixOptions,
}

/// A font to write on a canvas with.
pub struct LedFont {
    handle: Box<u8>,
}

impl LedMatrix {
    /// What the driver holds for this matrix.
    pub closed spec fn view(&self) -> FakeMatrix {
        *self.handle
    }

    /// The options this matrix was made with.
    pub closed spec fn options(&self) -> OptionsView {
        self._options@
    }

    /// Makes the matrix with `options`, or with no choice made where there
    /// are none. The driver here makes a matrix whatever the options are.
    pub fn new(options: Option<LedMatrixOptions>) -> (made: Result<LedMatrix, &'static str>)
        ensures
            made is Ok,
            made matches Ok(matrix) ==> matrix@ == FakeMatrix::fresh(),
            made matches Ok(matrix) ==> matrix.options() == (match options {
                Some(chosen) => chosen@,
                None => OptionsView::unset(),
            }),
    {
        let options = {
            if let Some(o) = options {
                o
            } else {
                LedMatrixOptions::new()
            }
        };

        let handle = rgbmatrix_mock::led_matrix_create_from_options(&options);

        match handle {
            None => Err("Couldn't create LedMatrix"),
            Some(handle) => Ok(LedMatrix { handle, _options: options }),
        }
    }

    /// The canvas on show.
    pub fn canvas(&self) -> (canvas: LedCanvas)
        ensures
            canvas@ == self@.main_canvas,
    {
        let handle = rgbmatrix_mock::led_matrix_get_canvas(&self.handle);

        LedCanvas { handle }
    }

    /// A new canvas off screen, to draw on and then hand to `swap`.
    pub fn offscreen_canvas(&mut self) -> (canvas: LedCanvas)
        ensures
            canvas@ == FakeCanvas::panel(),
            final(self)@ == (FakeMatrix {
                main_canvas: old(self)@.main_canvas,
                offscreen_canvas: Some(canvas@),
            }),
            final(self).options() == old(self).options(),
    {
        let handle = rgbmatrix_mock::led_matrix_create_offscreen_canvas(&mut self.handle);

        LedCanvas { handle }
    }

    /// Puts `canvas` on show and hands back the canvas to draw the next frame
    /// on. The driver here has no refresh to wait for, and hands `canvas`
    /// itself back.
    pub fn swap(&self, canvas: LedCanvas) -> (back: LedCanvas)
        ensures
            back@ == canvas@,
    {
        let handle = rgbmatrix_mock::led_matrix_swap_on_vsync(&self.handle, canvas.handle);

        LedCanvas { handle }
    }
}

impl LedFont {
    /// What the driver holds for this font.
    pub closed spec fn view(&self) -> u8 {
        *self.handle
    }

    /// What loading the font of a file comes to, given the text of the
    /// file's name: the font where there is text, and a refusal where there
    /// is none.
    pub open spec fn loads(name: Option<Seq<char>>, loaded: Result<LedFont, &'static str>) -> bool {
        match name {
            Some(_) => loaded matches Ok(font) && font@ == 0,
            None => loaded matches Err(why) && why@ == "Couldn't convert path to str"@,
        }
    }

    /// The font of a file in BDF format, given by the file's name as text.
    /// Without a name there is no font. The name goes to the driver as a C
    /// string, so it holds no NUL.
    pub fn from_file_name(name: Option<&str>) -> (loaded: Result<LedFont, &'static str>)
        requires
            name matches Some(text) ==> is_c_text(text@),
        ensures
            name matches Some(text) ==> LedFont::loads(Some(text@), loaded),
            name is None ==> LedFont::loads(None, loaded),
    {
        let string = match name {
            Some(s) => s,
            None => return Err("Couldn't convert path to str"),
        };

        let handle = rgbmatrix_mock::load_font(string);

        match handle {
            None => Err("Couldn't load font"),
            Some(handle) => Ok(LedFont { handle }),
        }
    }

    /// The font of the file `bdf_file`, which is in BDF format. A path that
    /// is no text is refused. One that is text holds no NUL.
    pub fn new(bdf_file: &PathBuf) -> (loaded: Result<LedFont, &'static str>)
        requires
            path_text(bdf_file) matches Some(text) ==> is_c_text(text),
        ensures
            LedFont::loads(path_text(bdf_file), loaded),
    {
        LedFont::from_file_name(path_to_str(bdf_file))
    }

    /// As `new`, for every path: `None` where the path is text with a NUL in
    /// it, which `new` does not take.
    pub fn try_new(bdf_file: &PathBuf) -> (tried: Option<Result<LedFont, &'static str>>)
        ensures
            tried is None <==> (path_text(bdf_file) matches Some(text) && !is_c_text(text)),
            tried matches Some(loaded) ==> LedFont::loads(path_text(bdf_file), loaded),
    {
        let name = path_to_str(bdf_file);
        let clean = match name {
            Some(text) => holds_no_nul(text),
            None => true,
        };
        if clean {
            Some(LedFont::from_file_name(name))
        } else {
            None
        }
    }
}

impl LedCanvas {
    /// What the driver holds for this canvas.
    pub closed spec fn view(&self) -> FakeCanvas {
        self.handle
    }

    /// The width and the height of the canvas, in pixels.
    pub fn size(&self) -> (size: (i32, i32))
        ensures
            size.0 == self@.width as c_int,
            size.1 == self@.height as c_int,
    {
        let (mut width, mut height): (c_int, c_int) = (0, 0);
        rgbmatrix_mock::led_canvas_get_size(&self.handle, &mut width, &mut height);
        (width as i32, height as i32)
    }

    /// Sets the pixel at `x`, `y` to `color`.
    pub fn set(&mut self, x: i32, y: i32, color: &LedColor)
        ensures
            final(self)@ == old(self)@,
    {
        rgbmatrix_mock::led_canvas_set_pixel(
            &mut self.handle,
            x as c_int,
            y as c_int,
            color.red,
            color.green,
            color.blue,
        )
    }

    /// Turns every pixel off.
    pub fn clear(&mut self)
        ensures
            final(self)@ == old(self)@,
    {
        rgbmatrix_mock::led_canvas_clear(&mut self.handle);
    }

    /// Sets every pixel to `color`.
    pub fn fill(&mut self, color: &LedColor)
        ensures
            final(self)@ == old(self)@,
    {
        rgbmatrix_mock::led_canvas_fill(&mut self.handle, color.red, color.green, color.blue);
    }

    /// Draws a line from `x0`, `y0` to `x1`, `y1` in `color`.
    pub fn draw_line(&mut self, x0: i32, y0: i32, x1: i32, y1: i32, color: &LedColor)
        ensures
            final(self)@ == old(self)@,
    {
        rgbmatrix_mock::draw_line(
            &mut self.handle,
            x0,
            y0,
            x1,
            y1,
            color.red,
            color.green,
            color.blue,
        );
    }

    /// Draws a circle round `x`, `y` in `color`. The driver takes the radius
    /// as a C `int`, so one over `i32::MAX` reaches it as a negative number.
    pub fn draw_circle(&mut self, x: i32, y: i32, radius: u32, color: &LedColor)
        ensures
            final(self)@ == old(self)@,
    {
        rgbmatrix_mock::draw_circle(
            &mut self.handle,
            x as c_int,
            y as c_int,
            #[verifier::truncate] (radius as c_int),
            color.red,
            color.green,
            color.blue,
        );
    }

    /// Writes `text` in `font` and `color` from `x`, `y`, along the line or,
    /// if `vertical`, down the column, and returns how far the writing went.
    /// The text goes to the driver as a C string, so it holds no NUL.
    pub fn draw_text(
        &mut self,
        font: &LedFont,
        text: &str,
        x: i32,
        y: i32,
        color: &LedColor,
        kerning_offset: i32,
        vertical: bool,
    ) -> (advance: i32)
        requires
            is_c_text(text@),
        ensures
            advance == 0,
            final(self)@ == old(self)@,
    {
        if vertical {
            rgbmatrix_mock::vertical_draw_text(
                &mut self.handle,
                &font.handle,
                x as c_int,
                y as c_int,
                color.red,
                color.green,
                color.blue,
                text,
                kerning_offset as c_int,
            ) as i32
        } else {
            rgbmatrix_mock::draw_text(
                &mut self.handle,
                &font.handle,
                x as c_int,
                y as c_int,
                color.red,
                color.green,
                color.blue,
                text,
                kerning_offset as c_int,
            ) as i32
        }
    }
}

} // verus!
