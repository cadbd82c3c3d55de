//! Cells of the grid and the steps between them.

use vstd::prelude::*;

verus! {

/// A pair of signed coordinates: a cell of the screen, or a step from one
/// cell to another. Columns grow to the right and rows grow downwards. A
/// cell of the board is two columns wide, so the horizontal steps move by
/// two columns and the vertical steps by one row.
#[derive(Clone, Copy, PartialEq, Eq, Structural, Debug)]
pub struct Vec2 {
    /// The column, or the number of columns to the right.
    pub x: i16,
    /// The row, or the number of rows down.
    pub y: i16,
}

impl Vec2 {
    /// What `left` returns.
    pub open spec fn spec_left() -> Vec2 {
        Vec2 { x: (-2) as i16, y: 0 }
    }

    /// What `down` returns.
    pub open spec fn spec_down() -> Vec2 {
        Vec2 { x: 0, y: 1 }
    }

    /// What `up` returns.
    pub open spec fn spec_up() -> Vec2 {
        Vec2 { x: 0, y: (-1) as i16 }
    }

    /// What `right` returns.
    pub open spec fn spec_right() -> Vec2 {
        Vec2 { x: 2, y: 0 }
    }

    /// Whether this vector is one of the four steps a snake can take.
    pub open spec fn is_step(self) -> bool {
        ||| self == Vec2::spec_left()
        ||| self == Vec2::spec_down()
        ||| self == Vec2::spec_up()
        ||| self == Vec2::spec_right()
    }

    /// The sum of two vectors, coordinate by coordinate. Each coordinate
    /// wraps around at the ends of the 16-bit range.
    pub open spec fn spec_add(self, rhs: Vec2) -> Vec2 {
        Vec2 { x: self.x.wrapping_add(rhs.x), y: self.y.wrapping_add(rhs.y) }
    }

    /// The product of two vectors, coordinate by coordinate. Each coordinate
    /// wraps around at the ends of the 16-bit range.
    pub open spec fn spec_mul(self, rhs: Vec2) -> Vec2 {
        Vec2 { x: self.x.wrapping_mul(rhs.x), y: self.y.wrapping_mul(rhs.y) }
    }

    /// The vector that undoes this one: `v.spec_add(v.spec_opposite())` is
    /// the origin.
    pub open spec fn spec_opposite(self) -> Vec2 {
        Vec2 { x: 0i16.wrapping_sub(self.x), y: 0i16.wrapping_sub(self.y) }
    }

    /// The vector with the coordinates `x` and `y`.
    pub fn new(x: i16, y: i16) -> (v: Vec2)
        ensures
            v == (Vec2 { x, y }),
    {
        Vec2 { x, y }
    }

    /// The step one cell to the left: two columns.
    #[verifier::when_used_as_spec(spec_left)]
    pub fn left() -> (v: Vec2)
        ensures
            v == Vec2::spec_left(),
    {
        Vec2::new(-2, 0)
    }

    /// The step one cell down: one row.
    #[verifier::when_used_as_spec(spec_down)]
    pub fn down() -> (v: Vec2)
        ensures
            v == Vec2::spec_down(),
    {
        Vec2::new(0, 1)
    }

    /// The step one cell up: one row.
    #[verifier::when_used_as_spec(spec_up)]
    pub fn up() -> (v: Vec2)
        ensures
            v == Vec2::spec_up(),
    {
        Vec2::new(0, -1)
    }

    /// The step one cell to the right: two columns.
    #[verifier::when_used_as_spec(spec_right)]
    pub fn right() -> (v: Vec2)
        ensures
            v == Vec2::spec_right(),
    {
        Vec2::new(2, 0)
    }

    /// The sum of this vector and `rhs`, coordinate by coordinate, each
    /// wrapping around at the ends of the 16-bit range.
    #[verifier::when_used_as_spec(spec_add)]
    pub fn add(self, rhs: Vec2) -> (sum: Vec2)
        ensures
            sum == self.spec_add(rhs),
    {
        Vec2 { x: self.x.wrapping_add(rhs.x), y: self.y.wrapping_add(rhs.y) }
    }

    /// The product of this vector and `rhs`, coordinate by coordinate, each
    /// wrapping around at the ends of the 16-bit range.
    #[verifier::when_used_as_spec(spec_mul)]
    pub fn mul(self, rhs: Vec2) -> (product: Vec2)
        ensures
            product == self.spec_mul(rhs),
    {
        Vec2 { x: self.x.wrapping_mul(rhs.x), y: self.y.wrapping_mul(rhs.y) }
    }

    /// The vector that undoes this one.
    #[verifier::when_used_as_spec(spec_opposite)]
    pub fn opposite(self) -> (back: Vec2)
        ensures
            back == self.spec_opposite(),
    {
        Vec2 { x: 0i16.wrapping_sub(self.x), y: 0i16.wrapping_sub(self.y) }
    }

    /// Adds `rhs` to this vector, as `add` does.
    pub fn add_assign(&mut self, rhs: Vec2)
        ensures
            *final(self) == old(self).spec_add(rhs),
    {
        *self = self.add(rhs);
    }
}

} // verus!
