use vstd::prelude::*;

use crate::base::color::Color;
use crate::canvas::canvas::Canvas;
use crate::canvas::vector_canvas::VectorCanvas;
use vstd::string::StrSliceExecFns;

verus! {

/// Designed for rendering console output, where each character cell has a
/// background color and a character. Holds two grids of the same size for
/// this purpose (it does not implement `Canvas` itself); the presentation
/// layer reads both and emits one colored character per cell.
pub struct ConsoleCompositeCanvas {
    pub width: usize,
    pub height: usize,
    pub colors: VectorCanvas<Color>,
    pub chars: VectorCanvas<char>,
    pub text_color: Color,
}

/// Both grids sized to the stated dimensions.
pub open spec fn composite_wf(c: ConsoleCompositeCanvas) -> bool {
    &&& c.colors.wf()
    &&& c.chars.wf()
    &&& c.colors.width_spec() == c.width as int
    &&& c.colors.height_spec() == c.height as int
    &&& c.chars.width_spec() == c.width as int
    &&& c.chars.height_spec() == c.height as int
}

impl ConsoleCompositeCanvas {
    /// A composite canvas with black colors and space characters.
    pub fn new(width: usize, height: usize, text_color: Color) -> (r: ConsoleCompositeCanvas)
        requires
            width * height <= usize::MAX,
        ensures
            composite_wf(r),
            r.width == width,
            r.height == height,
            r.text_color == text_color,
            forall|i: int, j: int|
                0 <= i < width && 0 <= j < height ==> r.colors.value_spec(i, j) == (Color {
                    r: 0i64,
                    g: 0i64,
                    b: 0i64,
                }),
            forall|i: int, j: int|
                0 <= i < width && 0 <= j < height ==> r.chars.value_spec(i, j) == ' ',
    {
        let colors = VectorCanvas::<Color>::new(width, height, Color::new_black());
        let chars = VectorCanvas::<char>::new(width, height, ' ');
        ConsoleCompositeCanvas { width, height, colors, chars, text_color }
    }

    pub fn get_width(&self) -> (r: usize)
        ensures
            r == self.width,
    {
        self.width
    }

    pub fn get_height(&self) -> (r: usize)
        ensures
            r == self.height,
    {
        self.height
    }

    /// Set every cell of the character grid to `character`.
    pub fn clear_chars(&mut self, character: char)
        requires
            composite_wf(*old(self)),
        ensures
            composite_wf(*final(self)),
            final(self).width == old(self).width,
            final(self).height == old(self).height,
            final(self).colors == old(self).colors,
            final(self).text_color == old(self).text_color,
            forall|i: int, j: int|
                0 <= i < final(self).width && 0 <= j < final(self).height ==> final(self).chars.value_spec(i, j) == character,
    {
        let mut y: usize = 0;
        while y < self.height
            invariant
                composite_wf(*self),
                self.width == old(self).width,
                self.height == old(self).height,
                self.colors == old(self).colors,
                self.text_color == old(self).text_color,
                0 <= y <= self.height,
                forall|i: int, j: int|
                    0 <= i < self.width && 0 <= j < y ==> self.chars.value_spec(i, j) == character,
            decreases self.height - y,
        {
            let mut x: usize = 0;
            while x < self.width
                invariant
                    composite_wf(*self),
                    self.width == old(self).width,
                    self.height == old(self).height,
                    self.colors == old(self).colors,
                    self.text_color == old(self).text_color,
                    0 <= y < self.height,
                    0 <= x <= self.width,
                    forall|i: int, j: int|
                        0 <= i < self.width && 0 <= j < y ==> self.chars.value_spec(i, j)
                            == character,
                    forall|i: int|
                        0 <= i < x ==> self.chars.value_spec(i, y as int) == character,
                decreases self.width - x,
            {
                self.chars.set_value(x, y, &character);
                x = x + 1;
            }
            y = y + 1;
        }
    }

    /// 'Fill' a row of the character grid with the characters of `string`,
    /// starting at `(x, y)`; characters past the right edge are dropped.
    pub fn set_text(&mut self, x: usize, y: usize, string: &str)
        requires
            composite_wf(*old(self)),
            x <= old(self).width,
            y < old(self).height,
        ensures
            composite_wf(*final(self)),
            final(self).width == old(self).width,
            final(self).height == old(self).height,
            final(self).colors == old(self).colors,
            final(self).text_color == old(self).text_color,
            ({
                let n = vstd::math::min(string@.len() as int, old(self).width - x);
                &&& forall|i: int|
                    0 <= i < n ==> final(self).chars.value_spec(x + i, y as int) == string@[i]
                &&& forall|i: int, j: int|
                    0 <= i < old(self).width && 0 <= j < old(self).height && !(j == y as int && x
                        <= i < x + n) ==> final(self).chars.value_spec(i, j) == old(self).chars.value_spec(i, j)
            }),
    {
        let len = string.unicode_len();
        let num_chars = if len >= self.width - x {
            self.width - x
        } else {
            len
        };
        let mut i: usize = 0;
        while i < num_chars
            invariant
                composite_wf(*self),
                self.width == old(self).width,
                self.height == old(self).height,
                self.colors == old(self).colors,
                self.text_color == old(self).text_color,
                x <= self.width,
                y < self.height,
                num_chars as int == vstd::math::min(string@.len() as int, self.width - x),
                0 <= i <= num_chars,
                forall|m: int|
                    0 <= m < i ==> self.chars.value_spec(x + m, y as int) == string@[m],
                forall|a: int, b: int|
                    0 <= a < self.width && 0 <= b < self.height && !(b == y as int && x <= a < x
                        + i) ==> self.chars.value_spec(a, b) == old(self).chars.value_spec(a, b),
            decreases num_chars - i,
        {
            let c = string.get_char(i);
            self.chars.set_value(x + i, y, &c);
            i = i + 1;
        }
    }
}

} // verus!
