//! Faces of an axis-aligned box: which one a ray enters through, its
//! outward normal, the axes that carry its texture coordinates, and the
//! orientation of the normal against the incoming ray.

use vstd::prelude::*;

verus! {

/// One of the three coordinate axes.
#[derive(Clone, Copy, Debug, PartialEq, Eq, Structural)]
pub enum Axis {
    X,
    Y,
    Z,
}

impl Axis {
    /// Position of the axis in an `(x, y, z)` triple.
    pub open spec fn spec_index(self) -> nat {
        match self {
            Axis::X => 0,
            Axis::Y => 1,
            Axis::Z => 2,
        }
    }

    pub fn index(self) -> (r: usize)
        ensures
            r == self.spec_index(),
    {
        match self {
            Axis::X => 0,
            Axis::Y => 1,
            Axis::Z => 2,
        }
    }
}


/// Sign of one component of a ray direction.
#[derive(Clone, Copy, Debug, PartialEq, Eq, Structural)]
pub enum Sign {
    Negative,
    Zero,
    Positive,
}

impl Sign {
    pub open spec fn of(v: int) -> Sign {
        if v < 0 {
            Sign::Negative
        } else if v == 0 {
            Sign::Zero
        } else {
            Sign::Positive
        }
    }

    pub open spec fn value(self) -> int {
        match self {
            Sign::Negative => -1,
            Sign::Zero => 0,
            Sign::Positive => 1,
        }
    }
}

/// Signs of the three components of a ray direction.
#[derive(Clone, Copy, Debug, PartialEq, Eq, Structural)]
pub struct DirectionSigns {
    pub x: Sign,
    pub y: Sign,
    pub z: Sign,
}

impl DirectionSigns {
    /// The signs of an integer direction; the sign of a dot product with an
    /// axis vector depends on nothing else, so integer directions stand for
    /// every direction.
    pub open spec fn of(d: (int, int, int)) -> DirectionSigns {
        DirectionSigns { x: Sign::of(d.0), y: Sign::of(d.1), z: Sign::of(d.2) }
    }
}

/// A vector whose components are integers, used for the unit normals of box
/// faces.
#[derive(Clone, Copy, Debug, PartialEq, Eq, Structural)]
pub struct AxisVector {
    pub x: i8,
    pub y: i8,
    pub z: i8,
}

impl AxisVector {
    pub open spec fn dot(self, d: (int, int, int)) -> int {
        self.x * d.0 + self.y * d.1 + self.z * d.2
    }

    /// Dot product with the signs of a direction in place of the direction.
    pub open spec fn dot_signs(self, s: DirectionSigns) -> int {
        self.x * s.x.value() + self.y * s.y.value() + self.z * s.z.value()
    }

    pub open spec fn negated(self) -> AxisVector {
        AxisVector { x: (-self.x) as i8, y: (-self.y) as i8, z: (-self.z) as i8 }
    }

    pub open spec fn is_unit_axis(self) -> bool {
        ||| (self.x == 1 || self.x == -1) && self.y == 0 && self.z == 0
        ||| self.x == 0 && (self.y == 1 || self.y == -1) && self.z == 0
        ||| self.x == 0 && self.y == 0 && (self.z == 1 || self.z == -1)
    }
}

/// A face of a box: the axis it is perpendicular to, and whether its outward
/// normal points along that axis (the face at the maximum corner) or
/// against it (the face at the minimum corner).
#[derive(Clone, Copy, Debug, PartialEq, Eq, Structural)]
pub struct Face {
    pub axis: Axis,
    pub positive: bool,
}

/// The face through which a ray enters the slab of `axis`. When the plane
/// through the minimum corner is crossed first the ray comes in through the
/// face at the minimum corner.
pub fn entry_face(axis: Axis, min_plane_first: bool) -> (r: Face)
    ensures
        r == (Face { axis, positive: !min_plane_first }),
{
    Face { axis, positive: !min_plane_first }
}

/// What the slab test finds on one axis of a box, from the ray's origin and
/// direction along that axis and the running interval `[t_near, t_far]`.
#[derive(Clone, Copy, Debug, PartialEq, Eq, Structural)]
pub enum SlabAxis {
    /// The direction is parallel to the two planes of the axis; `inside`
    /// says that the origin lies between them.
    Parallel { inside: bool },
    /// The ray crosses both planes. `min_plane_first` says that it meets the
    /// plane through the minimum corner first; `near_tightened` that the
    /// earlier crossing is strictly beyond `t_near`; `empty` that the
    /// interval is empty once both bounds are tightened.
    Crossing { min_plane_first: bool, near_tightened: bool, empty: bool },
}

/// One axis of the slab test: `None` when the ray misses the box, else the
/// face recorded so far. A parallel ray outside the slab misses at once, as
/// does a crossing that empties the interval. The crossing that strictly
/// tightens the near bound names the face it enters through; otherwise the
/// earlier record stands, so on a tie the axis tested first keeps the face.
pub open spec fn spec_slab_step(current: Option<Face>, axis: Axis, found: SlabAxis) -> Option<
    Option<Face>,
> {
    match found {
        SlabAxis::Parallel { inside } => if inside {
            Some(current)
        } else {
            None
        },
        SlabAxis::Crossing { min_plane_first, near_tightened, empty } => if empty {
            None
        } else if near_tightened {
            Some(Some(Face { axis, positive: !min_plane_first }))
        } else {
            Some(current)
        },
    }
}

pub fn slab_step(current: Option<Face>, axis: Axis, found: SlabAxis) -> (r: Option<Option<Face>>)
    ensures
        r == spec_slab_step(current, axis, found),
{
    match found {
        SlabAxis::Parallel { inside } => {
            if inside {
                Some(current)
            } else {
                None
            }
        },
        SlabAxis::Crossing { min_plane_first, near_tightened, empty } => {
            if empty {
                None
            } else if near_tightened {
                Some(Some(entry_face(axis, min_plane_first)))
            } else {
                Some(current)
            }
        },
    }
}

/// Whether what was found on one axis ends the slab test with a miss.
pub open spec fn is_miss(found: SlabAxis) -> bool {
    match found {
        SlabAxis::Parallel { inside } => !inside,
        SlabAxis::Crossing { empty, .. } => empty,
    }
}

/// The slab test over the axes in `steps`, in order, starting from the face
/// recorded in `current`: `None` once an axis misses.
pub open spec fn slab_run(current: Option<Face>, steps: Seq<(Axis, SlabAxis)>) -> Option<
    Option<Face>,
>
    decreases steps.len(),
{
    if steps.len() == 0 {
        Some(current)
    } else {
        match spec_slab_step(current, steps[0].0, steps[0].1) {
            None => None,
            Some(next) => slab_run(next, steps.drop_first()),
        }
    }
}

/// A ray that misses the slab of any one axis (parallel to it and outside,
/// or crossing it so that the interval becomes empty) misses the box,
/// whatever the other axes find.
pub proof fn lemma_miss_on_any_axis(current: Option<Face>, steps: Seq<(Axis, SlabAxis)>, i: int)
    requires
        0 <= i < steps.len(),
        is_miss(steps[i].1),
    ensures
        slab_run(current, steps) == None::<Option<Face>>,
    decreases steps.len(),
{
    match spec_slab_step(current, steps[0].0, steps[0].1) {
        None => {},
        Some(next) => {
            if i == 0 {
                assert(false);
            } else {
                assert(steps.drop_first()[i - 1] == steps[i]);
                lemma_miss_on_any_axis(next, steps.drop_first(), i - 1);
            }
        },
    }
}

/// Outward normal of a struck face. When no face was recorded (the ray
/// started inside the box and no crossing tightened the near bound) the
/// normal is the one along +y.
pub open spec fn spec_outward_normal(face: Option<Face>) -> AxisVector {
    match face {
        None => AxisVector { x: 0, y: 1, z: 0 },
        Some(f) => {
            let c: i8 = if f.positive { 1 } else { -1i8 };
            match f.axis {
                Axis::X => AxisVector { x: c, y: 0, z: 0 },
                Axis::Y => AxisVector { x: 0, y: c, z: 0 },
                Axis::Z => AxisVector { x: 0, y: 0, z: c },
            }
        },
    }
}

pub fn outward_normal(face: Option<Face>) -> (r: AxisVector)
    ensures
        r == spec_outward_normal(face),
        r.is_unit_axis(),
{
    match face {
        None => AxisVector { x: 0, y: 1, z: 0 },
        Some(f) => {
            let c: i8 = if f.positive { 1 } else { -1 };
            match f.axis {
                Axis::X => AxisVector { x: c, y: 0, z: 0 },
                Axis::Y => AxisVector { x: 0, y: c, z: 0 },
                Axis::Z => AxisVector { x: 0, y: 0, z: c },
            }
        },
    }
}

/// The axes whose offsets, divided by the box's size along them, give the
/// texture coordinates `(u, v)` on a face: `(z, y)` on an x face, `(x, z)`
/// on a y face, `(x, y)` on a z face. With no face both coordinates are 0.
pub open spec fn spec_uv_axes(face: Option<Face>) -> Option<(Axis, Axis)> {
    match face {
        None => None,
        Some(f) => match f.axis {
            Axis::X => Some((Axis::Z, Axis::Y)),
            Axis::Y => Some((Axis::X, Axis::Z)),
            Axis::Z => Some((Axis::X, Axis::Y)),
        },
    }
}

pub fn uv_axes(face: Option<Face>) -> (r: Option<(Axis, Axis)>)
    ensures
        r == spec_uv_axes(face),
{
    match face {
        None => None,
        Some(f) => match f.axis {
            Axis::X => Some((Axis::Z, Axis::Y)),
            Axis::Y => Some((Axis::X, Axis::Z)),
            Axis::Z => Some((Axis::X, Axis::Y)),
        },
    }
}

/// The normal reported for a hit, and whether the ray struck the outside of
/// the face.
#[derive(Clone, Copy, Debug, PartialEq, Eq, Structural)]
pub struct Orientation {
    pub normal: AxisVector,
    pub front_face: bool,
}

/// The ray strikes the front of a face when its direction has a negative
/// dot product with the outward normal; the reported normal is the outward
/// one there and the inward one otherwise.
pub open spec fn spec_orient(face: Option<Face>, signs: DirectionSigns) -> Orientation {
    let outward = spec_outward_normal(face);
    let front_face = outward.dot_signs(signs) < 0;
    Orientation { normal: if front_face { outward } else { outward.negated() }, front_face }
}

pub fn orient(face: Option<Face>, signs: DirectionSigns) -> (r: Orientation)
    ensures
        r == spec_orient(face, signs),
{
    let outward = outward_normal(face);
    let sx: i8 = sign_value(signs.x);
    let sy: i8 = sign_value(signs.y);
    let sz: i8 = sign_value(signs.z);
    let dot: i8 = outward.x * sx + outward.y * sy + outward.z * sz;
    let front_face = dot < 0;
    let normal = if front_face {
        outward
    } else {
        AxisVector { x: -outward.x, y: -outward.y, z: -outward.z }
    };
    Orientation { normal, front_face }
}

fn sign_value(s: Sign) -> (r: i8)
    ensures
        r == s.value(),
{
    match s {
        Sign::Negative => -1,
        Sign::Zero => 0,
        Sign::Positive => 1,
    }
}

/// The normal reported for any hit never points along the ray: its dot
/// product with the ray direction is at most zero, and the ray is on the
/// front of the face exactly when the outward normal opposes it.
pub proof fn lemma_normal_opposes_ray(face: Option<Face>, d: (int, int, int))
    ensures
        spec_orient(face, DirectionSigns::of(d)).normal.dot(d) <= 0,
        spec_orient(face, DirectionSigns::of(d)).front_face <==> spec_outward_normal(face).dot(d) < 0,
{
    let n = spec_outward_normal(face);
    let s = DirectionSigns::of(d);
    lemma_mul_unit(n.x as int, d.0);
    lemma_mul_unit(n.y as int, d.1);
    lemma_mul_unit(n.z as int, d.2);
    lemma_mul_unit(n.x as int, s.x.value());
    lemma_mul_unit(n.y as int, s.y.value());
    lemma_mul_unit(n.z as int, s.z.value());
    let m = n.negated();
    lemma_mul_unit(m.x as int, d.0);
    lemma_mul_unit(m.y as int, d.1);
    lemma_mul_unit(m.z as int, d.2);
}

proof fn lemma_mul_unit(c: int, v: int)
    requires
        -1 <= c <= 1,
    ensures
        c * v == (if c == 0 {
            0
        } else if c == 1 {
            v
        } else {
            -v
        }),
{
    assert(c * v == (if c == 0 {
        0
    } else if c == 1 {
        v
    } else {
        -v
    })) by (nonlinear_arith)
        requires
            -1 <= c <= 1,
    ;
}

} // verus!
