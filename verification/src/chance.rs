//! Numbers and cells drawn at random.

use rand::Rng;
use vstd::prelude::*;

use crate::vector::Vec2;

verus! {

/// `Rng::gen_range` of `rand`, on the generator that `rand::thread_rng`
/// hands out. Believed: the number drawn is at least `low` and less than
/// `high`. An empty range is left out, since `gen_range` panics on it.
#[verifier::external_body]
pub(crate) fn draw(low: i16, high: i16) -> (n: i16)
    requires
        low < high,
    ensures
        low <= n < high,
{
    rand::thread_rng().gen_range(low, high)
}

impl Vec2 {
    /// Whether this vector lies in the box that starts at `min` and ends
    /// just before `max`.
    pub open spec fn within(self, min: Vec2, max: Vec2) -> bool {
        &&& min.x <= self.x < max.x
        &&& min.y <= self.y < max.y
    }

    /// A vector drawn at random from the box that starts at `min` and ends
    /// just before `max`. Which vector of the box comes back is left to
    /// chance.
    pub fn random(min: Vec2, max: Vec2) -> (v: Vec2)
        requires
            min.x < max.x,
            min.y < max.y,
        ensures
            v.within(min, max),
    {
        let x = draw(min.x, max.x);
        let y = draw(min.y, max.y);
        Vec2::new(x, y)
    }
}

} // verus!
