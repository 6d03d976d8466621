use vstd::prelude::*;

verus! {

/// One of the three axes of the cube sphere's local space.
#[derive(Clone, Copy, Debug, PartialEq, Eq, Structural)]
pub enum Axis {
    X,
    Y,
    Z,
}

/// An axis together with the direction along it.
#[derive(Clone, Copy, Debug, PartialEq, Eq, Structural)]
pub struct SignedAxis {
    pub axis: Axis,
    pub positive: bool,
}

/// How a cube face sits in local space: the outward normal of the face, and the local
/// directions in which its u and v coordinates grow.
#[derive(Clone, Copy, Debug, PartialEq, Eq, Structural)]
pub struct SideFrame {
    pub normal: SignedAxis,
    pub u: SignedAxis,
    pub v: SignedAxis,
}

pub open spec fn signed(axis: Axis, positive: bool) -> SignedAxis {
    SignedAxis { axis, positive }
}

/// The frame of each of the six cube faces.
pub open spec fn frame_of(side: int) -> SideFrame {
    if side == 0 {
        SideFrame { normal: signed(Axis::X, false), u: signed(Axis::Z, true), v: signed(Axis::Y, false) }
    } else if side == 1 {
        SideFrame { normal: signed(Axis::Z, true), u: signed(Axis::X, true), v: signed(Axis::Y, false) }
    } else if side == 2 {
        SideFrame { normal: signed(Axis::Y, true), u: signed(Axis::X, true), v: signed(Axis::Z, true) }
    } else if side == 3 {
        SideFrame { normal: signed(Axis::X, true), u: signed(Axis::Y, false), v: signed(Axis::Z, true) }
    } else if side == 4 {
        SideFrame { normal: signed(Axis::Z, false), u: signed(Axis::Y, false), v: signed(Axis::X, true) }
    } else {
        SideFrame { normal: signed(Axis::Y, false), u: signed(Axis::Z, true), v: signed(Axis::X, true) }
    }
}

/// Returns the frame of a cube face: where its normal, u and v directions lie in local space.
/// Both directions of the face mapping (face coordinate to local position and back) and the
/// axis permutation of the Taylor coefficients read this one table.
pub fn side_frame(side: u32) -> (r: SideFrame)
    requires
        side < 6,
    ensures
        r == frame_of(side as int),
{
    match side {
        0 => SideFrame {
            normal: SignedAxis { axis: Axis::X, positive: false },
            u: SignedAxis { axis: Axis::Z, positive: true },
            v: SignedAxis { axis: Axis::Y, positive: false },
        },
        1 => SideFrame {
            normal: SignedAxis { axis: Axis::Z, positive: true },
            u: SignedAxis { axis: Axis::X, positive: true },
            v: SignedAxis { axis: Axis::Y, positive: false },
        },
        2 => SideFrame {
            normal: SignedAxis { axis: Axis::Y, positive: true },
            u: SignedAxis { axis: Axis::X, positive: true },
            v: SignedAxis { axis: Axis::Z, positive: true },
        },
        3 => SideFrame {
            normal: SignedAxis { axis: Axis::X, positive: true },
            u: SignedAxis { axis: Axis::Y, positive: false },
            v: SignedAxis { axis: Axis::Z, positive: true },
        },
        4 => SideFrame {
            normal: SignedAxis { axis: Axis::Z, positive: false },
            u: SignedAxis { axis: Axis::Y, positive: false },
            v: SignedAxis { axis: Axis::X, positive: true },
        },
        _ => SideFrame {
            normal: SignedAxis { axis: Axis::Y, positive: false },
            u: SignedAxis { axis: Axis::Z, positive: true },
            v: SignedAxis { axis: Axis::X, positive: true },
        },
    }
}

/// The precedence rule of face selection: x wins only when its magnitude is strictly the
/// largest, then z wins over y when strictly larger, and y takes every remaining tie.
pub open spec fn dominant_axis_spec(x_over_y: bool, x_over_z: bool, z_over_y: bool) -> Axis {
    if x_over_y && x_over_z {
        Axis::X
    } else if z_over_y {
        Axis::Z
    } else {
        Axis::Y
    }
}

/// Chooses the axis of largest magnitude from the three strict comparisons
/// `|x| > |y|`, `|x| > |z|` and `|z| > |y|`, breaking ties by a fixed precedence.
pub fn dominant_axis(x_over_y: bool, x_over_z: bool, z_over_y: bool) -> (r: Axis)
    ensures
        r == dominant_axis_spec(x_over_y, x_over_z, z_over_y),
{
    if x_over_y && x_over_z {
        Axis::X
    } else if z_over_y {
        Axis::Z
    } else {
        Axis::Y
    }
}

/// The face whose outward normal is the given signed axis.
pub open spec fn side_of_normal(normal: SignedAxis) -> int {
    match normal.axis {
        Axis::X => if normal.positive { 3 } else { 0 },
        Axis::Y => if normal.positive { 2 } else { 5 },
        Axis::Z => if normal.positive { 1 } else { 4 },
    }
}

/// Returns the face whose outward normal points along `axis`, in the positive or negative direction.
pub fn side_for_normal(axis: Axis, positive: bool) -> (r: u32)
    ensures
        r == side_of_normal(signed(axis, positive)),
        r < 6,
        frame_of(r as int).normal == signed(axis, positive),
{
    match axis {
        Axis::X => if positive { 3 } else { 0 },
        Axis::Y => if positive { 2 } else { 5 },
        Axis::Z => if positive { 1 } else { 4 },
    }
}

/// The face selected from the magnitude comparisons of a local position and the signs of its
/// components: x counts zero as positive, y and z count it as negative.
pub open spec fn select_side_spec(
    x_over_y: bool,
    x_over_z: bool,
    z_over_y: bool,
    x_negative: bool,
    y_positive: bool,
    z_positive: bool,
) -> int {
    let axis = dominant_axis_spec(x_over_y, x_over_z, z_over_y);
    let positive = match axis {
        Axis::X => !x_negative,
        Axis::Y => y_positive,
        Axis::Z => z_positive,
    };
    side_of_normal(signed(axis, positive))
}

/// Selects the cube face of a local position from the strict comparisons `|x| > |y|`,
/// `|x| > |z|`, `|z| > |y|` and the tests `x < 0`, `y > 0`, `z > 0`.
pub fn select_side(
    x_over_y: bool,
    x_over_z: bool,
    z_over_y: bool,
    x_negative: bool,
    y_positive: bool,
    z_positive: bool,
) -> (r: u32)
    ensures
        r == select_side_spec(x_over_y, x_over_z, z_over_y, x_negative, y_positive, z_positive),
        r < 6,
{
    let axis = dominant_axis(x_over_y, x_over_z, z_over_y);
    let positive = match axis {
        Axis::X => !x_negative,
        Axis::Y => y_positive,
        Axis::Z => z_positive,
    };
    side_for_normal(axis, positive)
}

/// `a` taken along the positive or the negative direction.
pub open spec fn oriented(positive: bool, a: int) -> int {
    if positive {
        a
    } else {
        -a
    }
}

pub open spec fn abs(a: int) -> int {
    if a < 0 {
        -a
    } else {
        a
    }
}

/// A local position on the cube, in exact integer arithmetic.
pub struct Point {
    pub x: int,
    pub y: int,
    pub z: int,
}

pub open spec fn component(p: Point, axis: Axis) -> int {
    match axis {
        Axis::X => p.x,
        Axis::Y => p.y,
        Axis::Z => p.z,
    }
}

/// The face that face selection picks for a local position: the dominant axis by the
/// precedence rule, and the sign of that component (x counts zero as positive, y and z as negative).
pub open spec fn face_of_point(p: Point) -> int {
    select_side_spec(abs(p.x) > abs(p.y), abs(p.x) > abs(p.z), abs(p.z) > abs(p.y), p.x < 0, p.y > 0, p.z > 0)
}

/// The value along `axis` of the point with face coordinates `(u / w, v / w)` on a face
/// with frame `f`, scaled by `w`.
pub open spec fn along(f: SideFrame, axis: Axis, u: int, v: int, w: int) -> int {
    if f.normal.axis == axis {
        oriented(f.normal.positive, w)
    } else if f.u.axis == axis {
        oriented(f.u.positive, u)
    } else {
        oriented(f.v.positive, v)
    }
}

/// The local position of face coordinates `(u / w, v / w)` on face `side`, scaled by `w`.
pub open spec fn cube_point(side: int, u: int, v: int, w: int) -> Point {
    let f = frame_of(side);
    Point { x: along(f, Axis::X, u, v, w), y: along(f, Axis::Y, u, v, w), z: along(f, Axis::Z, u, v, w) }
}

/// The face coordinates of a local position on face `side` are `(u_numerator / denominator,
/// v_numerator / denominator)`, the components along u and v divided by the one along the normal.
pub open spec fn u_numerator(side: int, p: Point) -> int {
    oriented(frame_of(side).u.positive, component(p, frame_of(side).u.axis))
}

pub open spec fn v_numerator(side: int, p: Point) -> int {
    oriented(frame_of(side).v.positive, component(p, frame_of(side).v.axis))
}

pub open spec fn denominator(side: int, p: Point) -> int {
    oriented(frame_of(side).normal.positive, component(p, frame_of(side).normal.axis))
}

/// Placing face coordinates on the cube and selecting the face again gives back the face and
/// the coordinates, for every point strictly inside a face (a point on an edge is a tie that the
/// precedence rule may give to the neighbouring face).
pub proof fn lemma_face_round_trip(side: int, u: int, v: int, w: int)
    requires
        0 <= side < 6,
        w > 0,
        abs(u) < w,
        abs(v) < w,
    ensures
        face_of_point(cube_point(side, u, v, w)) == side,
        u_numerator(side, cube_point(side, u, v, w)) == u,
        v_numerator(side, cube_point(side, u, v, w)) == v,
        denominator(side, cube_point(side, u, v, w)) == w,
{
    if side == 0 {
    } else if side == 1 {
    } else if side == 2 {
    } else if side == 3 {
    } else if side == 4 {
    } else {
    }
}

/// Face selection on an edge or corner, where the largest magnitude is shared, follows the fixed
/// precedence: a tie between x and z goes to z, and any tie with y goes to y.
pub proof fn lemma_edge_precedence(p: Point)
    ensures
        abs(p.x) == abs(p.z) && abs(p.z) > abs(p.y) ==> (face_of_point(p) == 1 || face_of_point(p) == 4),
        abs(p.x) == abs(p.y) && abs(p.y) >= abs(p.z) ==> (face_of_point(p) == 2 || face_of_point(p) == 5),
        abs(p.z) == abs(p.y) && abs(p.y) >= abs(p.x) ==> (face_of_point(p) == 2 || face_of_point(p) == 5),
{
}

/// The role that a face coordinate of one face plays when a location is re-projected from
/// another face: a fixed edge value, or the other face's s or t coordinate.
#[derive(Clone, Copy, Debug, PartialEq, Eq, Structural)]
pub enum SideInfo {
    Fixed0,
    Fixed1,
    PositiveS,
    PositiveT,
}

/// The roles for faces reached from an even face, indexed by how many faces further on the
/// target face lies.
pub open spec fn even_roles(index: int) -> (SideInfo, SideInfo) {
    if index == 0 {
        (SideInfo::PositiveS, SideInfo::PositiveT)
    } else if index == 1 {
        (SideInfo::Fixed0, SideInfo::PositiveT)
    } else if index == 2 {
        (SideInfo::Fixed0, SideInfo::PositiveS)
    } else if index == 3 {
        (SideInfo::PositiveT, SideInfo::PositiveS)
    } else if index == 4 {
        (SideInfo::PositiveT, SideInfo::Fixed0)
    } else {
        (SideInfo::PositiveS, SideInfo::Fixed0)
    }
}

/// The roles for faces reached from an odd face, indexed as for even faces.
pub open spec fn odd_roles(index: int) -> (SideInfo, SideInfo) {
    if index == 0 {
        (SideInfo::PositiveS, SideInfo::PositiveT)
    } else if index == 1 {
        (SideInfo::PositiveS, SideInfo::Fixed1)
    } else if index == 2 {
        (SideInfo::PositiveT, SideInfo::Fixed1)
    } else if index == 3 {
        (SideInfo::PositiveT, SideInfo::PositiveS)
    } else if index == 4 {
        (SideInfo::Fixed1, SideInfo::PositiveS)
    } else {
        (SideInfo::Fixed1, SideInfo::PositiveT)
    }
}

/// The roles of the s and t coordinates of face `other` for a location on face `side`.
pub open spec fn roles(side: int, other: int) -> (SideInfo, SideInfo) {
    let index = (6 + other - side) % 6;
    if side % 2 == 0 {
        even_roles(index)
    } else {
        odd_roles(index)
    }
}

/// The role that the frames of two faces give to a coordinate direction `target` of the
/// second face: the edge towards the first face where the direction runs along its normal,
/// or the first face's s or t where it runs along that face's u or v, with the same sign.
pub open spec fn role_from_frames(from: SideFrame, target: SignedAxis) -> Option<SideInfo> {
    if target.axis == from.normal.axis {
        if target.positive == from.normal.positive {
            Some(SideInfo::Fixed1)
        } else {
            Some(SideInfo::Fixed0)
        }
    } else if target == from.u {
        Some(SideInfo::PositiveS)
    } else if target == from.v {
        Some(SideInfo::PositiveT)
    } else {
        None
    }
}

/// The value that a coordinate with `role` takes, given the source coordinates and the two edge values.
pub open spec fn pick<T>(role: SideInfo, s: T, t: T, zero: T, one: T) -> T {
    match role {
        SideInfo::Fixed0 => zero,
        SideInfo::Fixed1 => one,
        SideInfo::PositiveS => s,
        SideInfo::PositiveT => t,
    }
}

impl SideInfo {
    /// Returns the value that a coordinate with this role takes: an edge value, or the source's s or t.
    pub fn pick<T: Copy>(self, s: T, t: T, zero: T, one: T) -> (r: T)
        ensures
            r == pick(self, s, t, zero, one),
    {
        match self {
            SideInfo::Fixed0 => zero,
            SideInfo::Fixed1 => one,
            SideInfo::PositiveS => s,
            SideInfo::PositiveT => t,
        }
    }

    /// Returns the roles of the s and t coordinates of face `other_side` for a location on face `side`.
    pub fn project_to_side(side: u32, other_side: u32) -> (r: [SideInfo; 2])
        requires
            side < 6,
            other_side < 6,
        ensures
            r[0] == roles(side as int, other_side as int).0,
            r[1] == roles(side as int, other_side as int).1,
    {
        let index = (6 + other_side - side) % 6;
        let even = side % 2 == 0;
        match index {
            0 => [SideInfo::PositiveS, SideInfo::PositiveT],
            1 => if even {
                [SideInfo::Fixed0, SideInfo::PositiveT]
            } else {
                [SideInfo::PositiveS, SideInfo::Fixed1]
            },
            2 => if even {
                [SideInfo::Fixed0, SideInfo::PositiveS]
            } else {
                [SideInfo::PositiveT, SideInfo::Fixed1]
            },
            3 => [SideInfo::PositiveT, SideInfo::PositiveS],
            4 => if even {
                [SideInfo::PositiveT, SideInfo::Fixed0]
            } else {
                [SideInfo::Fixed1, SideInfo::PositiveS]
            },
            _ => if even {
                [SideInfo::PositiveS, SideInfo::Fixed0]
            } else {
                [SideInfo::Fixed1, SideInfo::PositiveT]
            },
        }
    }
}

/// Re-projects the face coordinates `(s, t)` of a location on face `side` onto face
/// `other_side`, choosing the closest location there; `zero` and `one` are the two edge values.
pub fn project_st<T: Copy>(side: u32, other_side: u32, s: T, t: T, zero: T, one: T) -> (r: (T, T))
    requires
        side < 6,
        other_side < 6,
    ensures
        r.0 == pick(roles(side as int, other_side as int).0, s, t, zero, one),
        r.1 == pick(roles(side as int, other_side as int).1, s, t, zero, one),
{
    let info = SideInfo::project_to_side(side, other_side);
    (info[0].pick(s, t, zero, one), info[1].pick(s, t, zero, one))
}

/// The re-projection table agrees with the face frames: for every pair of faces, each
/// coordinate of the target face is pinned to the edge that faces the source face, or
/// follows the source coordinate that runs in the same local direction.
pub proof fn lemma_roles_match_frames(side: int, other: int)
    requires
        0 <= side < 6,
        0 <= other < 6,
    ensures
        role_from_frames(frame_of(side), frame_of(other).u) == Some(roles(side, other).0),
        role_from_frames(frame_of(side), frame_of(other).v) == Some(roles(side, other).1),
{
    if side == 0 {
    } else if side == 1 {
    } else if side == 2 {
    } else if side == 3 {
    } else if side == 4 {
    } else {
    }
}

} // verus!
