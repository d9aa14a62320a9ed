use vstd::prelude::*;

verus! {

/// Interface to a 2D grid of values `T`. The renderer writes its output
/// through this trait.
///
/// Coordinates are 0-indexed, `x` in `[0, width)` and `y` in `[0, height)`;
/// out-of-range coordinates are a programming error, ruled out by the
/// preconditions. `stored_spec` says what a write leaves in a cell: the value
/// itself for a lossless backing, or its quantized round trip for a backing
/// that stores fewer bits than `T` carries.
pub trait Canvas<T: Copy>: Sized {
    /// The grid's width.
    spec fn width_spec(&self) -> int;

    /// The grid's height.
    spec fn height_spec(&self) -> int;

    /// The value held by the cell `(x, y)`.
    spec fn value_spec(&self, x: int, y: int) -> T;

    /// Internal consistency of the backing store.
    spec fn wf(&self) -> bool;

    /// What a write of `v` leaves in a cell.
    spec fn stored_spec(v: T) -> T;

    fn get_width(&self) -> (r: usize)
        requires
            self.wf(),
        ensures
            r as int == self.width_spec(),
    ;

    fn get_height(&self) -> (r: usize)
        requires
            self.wf(),
        ensures
            r as int == self.height_spec(),
    ;

    fn get_value(&self, x: usize, y: usize) -> (r: T)
        requires
            self.wf(),
            (x as int) < self.width_spec(),
            (y as int) < self.height_spec(),
        ensures
            r == self.value_spec(x as int, y as int),
    ;

    fn set_value(&mut self, x: usize, y: usize, value: &T)
        requires
            old(self).wf(),
            (x as int) < old(self).width_spec(),
            (y as int) < old(self).height_spec(),
        ensures
            final(self).wf(),
            final(self).width_spec() == old(self).width_spec(),
            final(self).height_spec() == old(self).height_spec(),
            final(self).value_spec(x as int, y as int) == Self::stored_spec(*value),
            forall|i: int, j: int|
                0 <= i < old(self).width_spec() && 0 <= j < old(self).height_spec() && !(i == x
                    as int && j == y as int) ==> final(self).value_spec(i, j) == old(
                    self,
                ).value_spec(i, j),
    ;
}

} // verus!
