use vstd::prelude::*;

use crate::canvas::canvas::Canvas;

verus! {

/// Canvas backed by a vector, stored row by row. Writes are lossless: a cell
/// holds back exactly the value written into it.
pub struct VectorCanvas<T: Copy> {
    pub width: usize,
    pub height: usize,
    pub vector: Vec<T>,
}

impl<T: Copy> VectorCanvas<T> {
    /// A grid of the given size with every cell set to `default_value`.
    pub fn new(width: usize, height: usize, default_value: T) -> (r: VectorCanvas<T>)
        requires
            width * height <= usize::MAX,
        ensures
            r.wf(),
            r.width_spec() == width as int,
            r.height_spec() == height as int,
            forall|i: int, j: int|
                0 <= i < width && 0 <= j < height ==> r.value_spec(i, j) == default_value,
    {
        let num_elements: usize = width * height;
        let mut vector: Vec<T> = Vec::new();
        let mut k: usize = 0;
        while k < num_elements
            invariant
                0 <= k <= num_elements,
                vector@.len() == k,
                forall|m: int| 0 <= m < k ==> vector@[m] == default_value,
            decreases num_elements - k,
        {
            vector.push(default_value);
            k = k + 1;
        }
        let r = VectorCanvas { width, height, vector };
        proof {
            assert forall|i: int, j: int| 0 <= i < width && 0 <= j < height implies r.value_spec(
                i,
                j,
            ) == default_value by {
                assert(j * width + i < width * height) by (nonlinear_arith)
                    requires
                        0 <= i < width,
                        0 <= j < height;
                assert(j * width + i >= 0) by (nonlinear_arith)
                    requires
                        0 <= i,
                        0 <= j;
            }
        }
        r
    }

    /// The index of cell `(x, y)` in the backing vector.
    #[inline(always)]
    pub fn get_flat_index(&self, x: usize, y: usize) -> (r: usize)
        requires
            self.wf(),
            (x as int) < self.width_spec(),
            (y as int) < self.height_spec(),
        ensures
            r as int == (y as int) * self.width_spec() + (x as int),
            r < self.vector@.len(),
    {
        let total = self.vector.len();
        proof {
            lemma_flat_index_in_range(x as int, y as int, self.width as int, self.height as int);
            assert(total as int == (self.width as int) * (self.height as int));
        }
        y * self.width + x
    }
}

/// A cell's flat index lies inside a `width * height` vector.
proof fn lemma_flat_index_in_range(x: int, y: int, width: int, height: int)
    by (nonlinear_arith)
    requires
        0 <= x < width,
        0 <= y < height,
    ensures
        0 <= y * width + x < width * height,
{
}

impl<T: Copy> Canvas<T> for VectorCanvas<T> {
    open spec fn width_spec(&self) -> int {
        self.width as int
    }

    open spec fn height_spec(&self) -> int {
        self.height as int
    }

    open spec fn value_spec(&self, x: int, y: int) -> T {
        self.vector@[y * (self.width as int) + x]
    }

    open spec fn wf(&self) -> bool {
        self.vector@.len() == (self.width as int) * (self.height as int)
    }

    open spec fn stored_spec(v: T) -> T {
        v
    }

    fn get_width(&self) -> (r: usize) {
        self.width
    }

    fn get_height(&self) -> (r: usize) {
        self.height
    }

    fn get_value(&self, x: usize, y: usize) -> (r: T) {
        let i = self.get_flat_index(x, y);
        self.vector[i]
    }

    fn set_value(&mut self, x: usize, y: usize, value: &T) {
        let i = self.get_flat_index(x, y);
        self.vector[i] = *value;
        proof {
            assert forall|a: int, b: int|
                0 <= a < old(self).width_spec() && 0 <= b < old(self).height_spec() && !(a == x
                    as int && b == y as int) implies self.value_spec(a, b) == old(self).value_spec(
                a,
                b,
            ) by {
                lemma_flat_index_in_range(a, b, self.width as int, self.height as int);
                lemma_flat_distinct(
                    a,
                    b,
                    x as int,
                    y as int,
                    self.width as int,
                );
            }
        }
    }
}

/// Distinct cells have distinct flat indices.
proof fn lemma_flat_distinct(x1: int, y1: int, x2: int, y2: int, width: int)
    by (nonlinear_arith)
    requires
        0 <= x1 < width,
        0 <= x2 < width,
        0 <= y1,
        0 <= y2,
        !(x1 == x2 && y1 == y2),
    ensures
        y1 * width + x1 != y2 * width + x2,
{
}

} // verus!
