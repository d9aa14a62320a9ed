use vstd::prelude::*;

use crate::base::color::{channel_from_u8_spec, channel_to_u8_spec, Color};
use crate::canvas::canvas::Canvas;

verus! {

/// Color canvas backed by a `u8` vector in RGBA order. Writes are quantized:
/// a cell holds back the 8-bit round trip of the color written into it, with
/// the alpha byte pinned at 255.
pub struct U8Canvas {
    pub width: usize,
    pub height: usize,
    pub data: Vec<u8>,
}

/// The color stored by a write of `c`: each channel clamped, descaled to
/// 8 bits, and read back.
pub open spec fn quantized_spec(c: Color) -> Color {
    Color {
        r: channel_from_u8_spec(channel_to_u8_spec(c.r as int)) as i64,
        g: channel_from_u8_spec(channel_to_u8_spec(c.g as int)) as i64,
        b: channel_from_u8_spec(channel_to_u8_spec(c.b as int)) as i64,
    }
}

/// Writing a stored color back stores it unchanged: the byte round trip is
/// exact on values that came from bytes, so quantization is idempotent.
/// (This is what lets a band-rendered sub-surface be copied into a main
/// surface of the same kind without changing any pixel.)
pub proof fn lemma_quantized_idempotent(c: Color)
    ensures
        quantized_spec(quantized_spec(c)) == quantized_spec(c),
{
    lemma_channel_stable(c.r as int);
    lemma_channel_stable(c.g as int);
    lemma_channel_stable(c.b as int);
}

/// One channel's decode-encode round trip is stable.
proof fn lemma_channel_stable(x: int)
    ensures
        channel_from_u8_spec(
            channel_to_u8_spec(channel_from_u8_spec(channel_to_u8_spec(x))),
        ) == channel_from_u8_spec(channel_to_u8_spec(x)),
{
    crate::base::color::lemma_channel_to_u8_in_range(x);
    crate::base::color::lemma_channel_round_trip(channel_to_u8_spec(x));
}

impl U8Canvas {
    /// A grid of the given size, all bytes zero.
    pub fn new(width: usize, height: usize) -> (r: U8Canvas)
        requires
            width * height * 4 <= usize::MAX,
        ensures
            r.wf(),
            r.width_spec() == width as int,
            r.height_spec() == height as int,
            r.data@.len() == width * height * 4,
            forall|m: int| 0 <= m < r.data@.len() ==> r.data@[m] == 0u8,
    {
        let num_bytes: usize = width * height * 4;
        let mut data: Vec<u8> = Vec::new();
        let mut k: usize = 0;
        while k < num_bytes
            invariant
                0 <= k <= num_bytes,
                data@.len() == k,
                forall|m: int| 0 <= m < k ==> data@[m] == 0u8,
            decreases num_bytes - k,
        {
            data.push(0);
            k = k + 1;
        }
        U8Canvas { width, height, data }
    }

    /// The index of the first byte of cell `(x, y)`.
    #[inline(always)]
    fn get_flat_index(&self, x: usize, y: usize) -> (r: usize)
        requires
            self.wf(),
            (x as int) < self.width_spec(),
            (y as int) < self.height_spec(),
        ensures
            r as int == ((y as int) * (self.width as int) + (x as int)) * 4,
            r + 3 < self.data@.len(),
    {
        let total = self.data.len();
        proof {
            lemma_rgba_index_in_range(
                x as int,
                y as int,
                self.width as int,
                self.height as int,
            );
            assert(total as int == (self.width as int) * (self.height as int) * 4);
        }
        ((y * self.width) + x) * 4
    }
}

/// The four bytes of a cell lie inside a `width * height * 4` vector.
proof fn lemma_rgba_index_in_range(x: int, y: int, width: int, height: int)
    by (nonlinear_arith)
    requires
        0 <= x < width,
        0 <= y < height,
    ensures
        0 <= (y * width + x) * 4,
        (y * width + x) * 4 + 3 < width * height * 4,
{
}

/// The four bytes of distinct cells do not overlap.
proof fn lemma_rgba_distinct(x1: int, y1: int, x2: int, y2: int, width: int)
    by (nonlinear_arith)
    requires
        0 <= x1 < width,
        0 <= x2 < width,
        0 <= y1,
        0 <= y2,
        !(x1 == x2 && y1 == y2),
    ensures
        (y1 * width + x1) * 4 + 3 < (y2 * width + x2) * 4 || (y2 * width + x2) * 4 + 3 < (y1
            * width + x1) * 4,
{
}

impl Canvas<Color> for U8Canvas {
    open spec fn width_spec(&self) -> int {
        self.width as int
    }

    open spec fn height_spec(&self) -> int {
        self.height as int
    }

    open spec fn value_spec(&self, x: int, y: int) -> Color {
        let i = (y * (self.width as int) + x) * 4;
        Color {
            r: channel_from_u8_spec(self.data@[i] as int) as i64,
            g: channel_from_u8_spec(self.data@[i + 1] as int) as i64,
            b: channel_from_u8_spec(self.data@[i + 2] as int) as i64,
        }
    }

    open spec fn wf(&self) -> bool {
        self.data@.len() == (self.width as int) * (self.height as int) * 4
    }

    open spec fn stored_spec(c: Color) -> Color {
        quantized_spec(c)
    }

    fn get_width(&self) -> (r: usize) {
        self.width
    }

    fn get_height(&self) -> (r: usize) {
        self.height
    }

    fn get_value(&self, x: usize, y: usize) -> (r: Color) {
        let i = self.get_flat_index(x, y);
        Color::from_u8(self.data[i], self.data[i + 1], self.data[i + 2])
    }

    /// Beyond the trait's contract, the write's byte-level effect: the
    /// cell's three color bytes hold the clamped 8-bit channels, its alpha
    /// byte is pinned at 255, and no other byte moves.
    fn set_value(&mut self, x: usize, y: usize, color: &Color)
        ensures
            ({
                let i = ((y as int) * (old(self).width as int) + (x as int)) * 4;
                &&& final(self).data@.len() == old(self).data@.len()
                &&& final(self).data@[i] as int == channel_to_u8_spec(color.r as int)
                &&& final(self).data@[i + 1] as int == channel_to_u8_spec(color.g as int)
                &&& final(self).data@[i + 2] as int == channel_to_u8_spec(color.b as int)
                &&& final(self).data@[i + 3] == 255u8
                &&& forall|m: int|
                    0 <= m < old(self).data@.len() && !(i <= m <= i + 3) ==> final(self).data@[m]
                        == old(self).data@[m]
            }),
    {
        let i = self.get_flat_index(x, y);
        let (r, g, b) = color.to_u8();
        self.data[i] = r;
        self.data[i + 1] = g;
        self.data[i + 2] = b;
        self.data[i + 3] = 255;
        proof {
            assert forall|a: int, c: int|
                0 <= a < old(self).width_spec() && 0 <= c < old(self).height_spec() && !(a == x
                    as int && c == y as int) implies self.value_spec(a, c) == old(self).value_spec(
                a,
                c,
            ) by {
                lemma_rgba_index_in_range(a, c, self.width as int, self.height as int);
                lemma_rgba_distinct(a, c, x as int, y as int, self.width as int);
            }
        }
    }
}

} // verus!
