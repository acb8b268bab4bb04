//! Faces of an axis-aligned cube: which one a surface point lies on, its outward normal,
//! and the axes its texture is laid along.
use vstd::prelude::*;

verus! {

/// A world axis.
#[derive(Clone, Copy, Debug, PartialEq, Eq, Structural)]
pub enum Axis {
    X,
    Y,
    Z,
}

/// A face of an axis-aligned cube, named by the direction it faces, listed in tie-break order.
#[derive(Clone, Copy, Debug, PartialEq, Eq, Structural)]
pub enum Face {
    NegX,
    PosX,
    NegY,
    PosY,
    NegZ,
    PosZ,
}

impl Face {
    /// Position of the face in tie-break order.
    pub open spec fn rank(self) -> int {
        match self {
            Face::NegX => 0,
            Face::PosX => 1,
            Face::NegY => 2,
            Face::PosY => 3,
            Face::NegZ => 4,
            Face::PosZ => 5,
        }
    }

    /// The outward unit normal of the face, as integer components.
    pub open spec fn normal_spec(self) -> (i8, i8, i8) {
        match self {
            Face::NegX => (-1i8, 0i8, 0i8),
            Face::PosX => (1i8, 0i8, 0i8),
            Face::NegY => (0i8, -1i8, 0i8),
            Face::PosY => (0i8, 1i8, 0i8),
            Face::NegZ => (0i8, 0i8, -1i8),
            Face::PosZ => (0i8, 0i8, 1i8),
        }
    }

    /// The two in-plane axes the face's texture runs along, horizontal first.
    pub open spec fn texture_axes_spec(self) -> (Axis, Axis) {
        match self {
            Face::NegX | Face::PosX => (Axis::Z, Axis::Y),
            Face::NegY | Face::PosY => (Axis::X, Axis::Z),
            Face::NegZ | Face::PosZ => (Axis::X, Axis::Y),
        }
    }

    /// The outward unit normal of the face.
    pub fn normal(self) -> (r: (i8, i8, i8))
        ensures
            r == self.normal_spec(),
    {
        match self {
            Face::NegX => (-1, 0, 0),
            Face::PosX => (1, 0, 0),
            Face::NegY => (0, -1, 0),
            Face::PosY => (0, 1, 0),
            Face::NegZ => (0, 0, -1),
            Face::PosZ => (0, 0, 1),
        }
    }

    /// The axes along which a point's offset on this face is read as texture coordinates.
    pub fn texture_axes(self) -> (r: (Axis, Axis))
        ensures
            r == self.texture_axes_spec(),
    {
        match self {
            Face::NegX | Face::PosX => (Axis::Z, Axis::Y),
            Face::NegY | Face::PosY => (Axis::X, Axis::Z),
            Face::NegZ | Face::PosZ => (Axis::X, Axis::Y),
        }
    }
}

/// The face a surface point lies on, from its distances to the six face planes, given as
/// order keys in tie-break order (-x, +x, -y, +y, -z, +z): the nearest plane, and among
/// equally near ones the first.
pub fn nearest_face(dist: &[u64; 6]) -> (f: Face)
    ensures
        forall|j: int| 0 <= j < 6 ==> dist@[f.rank()] <= #[trigger] dist@[j],
        forall|j: int| 0 <= j < f.rank() ==> dist@[f.rank()] < #[trigger] dist@[j],
{
    let mut best: usize = 0;
    let mut i: usize = 1;
    while i < 6
        invariant
            dist@.len() == 6,
            best < i <= 6,
            forall|j: int| 0 <= j < i ==> dist@[best as int] <= #[trigger] dist@[j],
            forall|j: int| 0 <= j < best ==> dist@[best as int] < #[trigger] dist@[j],
        decreases 6 - i,
    {
        if dist[i] < dist[best] {
            best = i;
        }
        i = i + 1;
    }
    let f = match best {
        0 => Face::NegX,
        1 => Face::PosX,
        2 => Face::NegY,
        3 => Face::PosY,
        4 => Face::NegZ,
        _ => Face::PosZ,
    };
    assert(f.rank() == best);
    f
}

} // verus!
