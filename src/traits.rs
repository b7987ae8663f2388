use vstd::prelude::*;

use crate::utils::{shift_fits, shifted, Point};

verus! {

/// Something that stands somewhere on the plane and can be moved.
pub trait Movable: Sized {
    /// Where the value stands.
    spec fn location(&self) -> Point<i64>;

    /// The same value standing at `p`, with everything else as it was.
    spec fn placed_at(&self, p: Point<i64>) -> Self;

    /// Moves by `(x, y)` relative to the current location.
    fn move_by(&mut self, x: i64, y: i64)
        requires
            shift_fits(old(self).location(), x as int, y as int),
        ensures
            *final(self) == old(self).placed_at(
                shifted(old(self).location(), x as int, y as int),
            ),
    ;

    /// Moves to the absolute location `(x, y)`.
    fn move_to(&mut self, x: i64, y: i64)
        ensures
            *final(self) == old(self).placed_at(Point { x, y }),
    ;
}

} // verus!
