use vstd::prelude::*;

verus! {

/// One of the six faces of an axis-aligned box, in the order in which a
/// surface point is tested against them.
#[derive(Clone, Copy, Debug, PartialEq, Eq, Structural)]
pub enum Face {
    XMin,
    XMax,
    YMin,
    YMax,
    ZMin,
    ZMax,
}

/// Position of a face in the testing order.
pub open spec fn face_rank(f: Face) -> int {
    match f {
        Face::XMin => 0,
        Face::XMax => 1,
        Face::YMin => 2,
        Face::YMax => 3,
        Face::ZMin => 4,
        Face::ZMax => 5,
    }
}

/// Axis a face is perpendicular to: 0 for x, 1 for y, 2 for z.
pub open spec fn face_axis(f: Face) -> int {
    face_rank(f) / 2
}

/// Whether the face lies at the lower bound of its axis.
pub open spec fn face_is_min(f: Face) -> bool {
    face_rank(f) % 2 == 0
}

/// Outward unit normal of a face, as integer components.
pub open spec fn normal_of(f: Face) -> (i8, i8, i8) {
    let s: i8 = if face_is_min(f) { -1i8 } else { 1i8 };
    if face_axis(f) == 0 {
        (s, 0, 0)
    } else if face_axis(f) == 1 {
        (0, s, 0)
    } else {
        (0, 0, s)
    }
}

/// The first face whose closeness flag is set, in the order x-min, x-max,
/// y-min, y-max, z-min; z-max when none of those five is set.
pub open spec fn first_close(close: Seq<bool>) -> int {
    if close[0] {
        0
    } else if close[1] {
        1
    } else if close[2] {
        2
    } else if close[3] {
        3
    } else if close[4] {
        4
    } else {
        5
    }
}

/// The face that a point on a box's surface belongs to. `close[k]` says
/// whether the point's coordinate is within tolerance of the bound of face
/// number `k` (x-min, x-max, y-min, y-max, z-min, z-max). The first close
/// face wins, so a point on an edge or corner gets the face tested first;
/// z-max is the answer when none of the first five is close.
pub fn classify_face(close: [bool; 6]) -> (f: Face)
    ensures
        face_rank(f) == first_close(close@),
        forall|k: int| 0 <= k < face_rank(f) ==> !close@[k],
        face_rank(f) < 5 ==> close@[face_rank(f)],
{
    if close[0] {
        Face::XMin
    } else if close[1] {
        Face::XMax
    } else if close[2] {
        Face::YMin
    } else if close[3] {
        Face::YMax
    } else if close[4] {
        Face::ZMin
    } else {
        Face::ZMax
    }
}

impl Face {
    /// Outward unit normal of the face.
    pub fn normal(self) -> (n: (i8, i8, i8))
        ensures
            n == normal_of(self),
    {
        match self {
            Face::XMin => (-1, 0, 0),
            Face::XMax => (1, 0, 0),
            Face::YMin => (0, -1, 0),
            Face::YMax => (0, 1, 0),
            Face::ZMin => (0, 0, -1),
            Face::ZMax => (0, 0, 1),
        }
    }

    /// Axis the face is perpendicular to: 0 for x, 1 for y, 2 for z.
    pub fn axis(self) -> (a: usize)
        ensures
            a == face_axis(self),
    {
        match self {
            Face::XMin | Face::XMax => 0,
            Face::YMin | Face::YMax => 1,
            Face::ZMin | Face::ZMax => 2,
        }
    }

    /// The two in-plane axes that texture coordinates are read from, in
    /// ascending order: y and z on an x face, x and z on a y face, x and y
    /// on a z face.
    pub fn uv_axes(self) -> (p: (usize, usize))
        ensures
            p.0 < p.1 < 3,
            p.0 != face_axis(self),
            p.1 != face_axis(self),
    {
        match self {
            Face::XMin | Face::XMax => (1, 2),
            Face::YMin | Face::YMax => (0, 2),
            Face::ZMin | Face::ZMax => (0, 1),
        }
    }
}

/// Every face normal is one of the six axis-aligned unit vectors: one
/// component is 1 or -1, on the face's axis, the other two are zero; and it
/// points outward, negative on a lower face and positive on an upper one.
pub proof fn lemma_normal_is_axis_unit(f: Face)
    ensures
        ({
            let (x, y, z) = normal_of(f);
            &&& x * x + y * y + z * z == 1
            &&& (face_axis(f) == 0 ==> y == 0 && z == 0 && (x < 0 <==> face_is_min(f)))
            &&& (face_axis(f) == 1 ==> x == 0 && z == 0 && (y < 0 <==> face_is_min(f)))
            &&& (face_axis(f) == 2 ==> x == 0 && y == 0 && (z < 0 <==> face_is_min(f)))
        }),
{
}

} // verus!
