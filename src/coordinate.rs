use vstd::prelude::*;
use crate::side::{pick, project_st, roles, SideInfo};

verus! {

/// Describes a location on the unit cube sphere.
/// The side index refers to one of the six cube faces and the st coordinate describes the
/// location within this side. The coordinate type `T` is left open: the library decides which
/// face and which coordinate, the caller supplies the numbers.
#[derive(Clone, Copy, Debug)]
pub struct Coordinate<T> {
    pub side: u32,
    pub s: T,
    pub t: T,
}

impl<T: Copy> Coordinate<T> {
    pub fn new(side: u32, s: T, t: T) -> (r: Self)
        ensures
            r.side == side,
            r.s == s,
            r.t == t,
    {
        Coordinate { side, s, t }
    }

    /// Projects the coordinate onto one of the six cube faces, choosing the closest location
    /// on that face; `zero` and `one` are the values of the face's two edges.
    pub fn project_to_side(self, side: u32, zero: T, one: T) -> (r: Self)
        requires
            self.side < 6,
            side < 6,
        ensures
            r.side == side,
            r.s == pick(roles(self.side as int, side as int).0, self.s, self.t, zero, one),
            r.t == pick(roles(self.side as int, side as int).1, self.s, self.t, zero, one),
    {
        let (s, t) = project_st(self.side, side, self.s, self.t, zero, one);
        Coordinate { side, s, t }
    }
}

/// Projecting a coordinate onto its own face gives back the same coordinate: both of its
/// coordinates keep their role.
pub proof fn lemma_coordinate_own_side<T>(c: Coordinate<T>, zero: T, one: T)
    requires
        c.side < 6,
    ensures
        roles(c.side as int, c.side as int) == (SideInfo::PositiveS, SideInfo::PositiveT),
        pick(roles(c.side as int, c.side as int).0, c.s, c.t, zero, one) == c.s,
        pick(roles(c.side as int, c.side as int).1, c.s, c.t, zero, one) == c.t,
{
}

} // verus!
