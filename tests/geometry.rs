use proy2::face::{
    entry_face, orient, outward_normal, slab_step, uv_axes, Axis, AxisVector, DirectionSigns, Face,
    SlabAxis, Sign,
};

fn signs(x: Sign, y: Sign, z: Sign) -> DirectionSigns {
    DirectionSigns { x, y, z }
}

fn dot_with_signs(n: AxisVector, s: DirectionSigns) -> i32 {
    let v = |s: Sign| match s {
        Sign::Negative => -1,
        Sign::Zero => 0,
        Sign::Positive => 1,
    };
    n.x as i32 * v(s.x) + n.y as i32 * v(s.y) + n.z as i32 * v(s.z)
}

#[test]
fn axis_indices() {
    assert_eq!(Axis::X.index(), 0);
    assert_eq!(Axis::Y.index(), 1);
    assert_eq!(Axis::Z.index(), 2);
}

#[test]
fn entering_through_min_plane_gives_negative_face() {
    assert_eq!(entry_face(Axis::X, true), Face { axis: Axis::X, positive: false });
    assert_eq!(entry_face(Axis::Y, false), Face { axis: Axis::Y, positive: true });
}

#[test]
fn tie_between_axes_keeps_first_axis() {
    let crossing = |min_plane_first, near_tightened| SlabAxis::Crossing {
        min_plane_first,
        near_tightened,
        empty: false,
    };
    let first = slab_step(None, Axis::X, crossing(true, true)).unwrap();
    assert_eq!(first, Some(Face { axis: Axis::X, positive: false }));
    // the y crossing ties with x: the near bound is not strictly tightened
    let second = slab_step(first, Axis::Y, crossing(false, false)).unwrap();
    assert_eq!(second, first);
    let third = slab_step(second, Axis::Z, crossing(false, true)).unwrap();
    assert_eq!(third, Some(Face { axis: Axis::Z, positive: true }));
}

#[test]
fn parallel_ray_outside_slab_misses() {
    assert_eq!(slab_step(None, Axis::X, SlabAxis::Parallel { inside: false }), None);
    let f = Some(Face { axis: Axis::Y, positive: true });
    assert_eq!(slab_step(f, Axis::Z, SlabAxis::Parallel { inside: true }), Some(f));
}

#[test]
fn empty_interval_misses() {
    let found = SlabAxis::Crossing { min_plane_first: true, near_tightened: true, empty: true };
    assert_eq!(slab_step(None, Axis::Y, found), None);
}

#[test]
fn outward_normals_of_faces() {
    assert_eq!(outward_normal(None), AxisVector { x: 0, y: 1, z: 0 });
    assert_eq!(
        outward_normal(Some(Face { axis: Axis::X, positive: false })),
        AxisVector { x: -1, y: 0, z: 0 }
    );
    assert_eq!(
        outward_normal(Some(Face { axis: Axis::Z, positive: true })),
        AxisVector { x: 0, y: 0, z: 1 }
    );
}

#[test]
fn texture_axes_of_faces() {
    assert_eq!(uv_axes(None), None);
    assert_eq!(uv_axes(Some(Face { axis: Axis::X, positive: true })), Some((Axis::Z, Axis::Y)));
    assert_eq!(uv_axes(Some(Face { axis: Axis::Y, positive: false })), Some((Axis::X, Axis::Z)));
    assert_eq!(uv_axes(Some(Face { axis: Axis::Z, positive: true })), Some((Axis::X, Axis::Y)));
}

#[test]
fn unit_cube_hit_from_positive_z() {
    // A ray from (0.5, 0.5, 5) towards (0.5, 0.5, 0): parallel to the x and y
    // slabs, and the plane z = 1 is crossed before z = 0.
    let mut face = None;
    for axis in [Axis::X, Axis::Y] {
        face = slab_step(face, axis, SlabAxis::Parallel { inside: true }).unwrap();
    }
    let found = SlabAxis::Crossing { min_plane_first: false, near_tightened: true, empty: false };
    face = slab_step(face, Axis::Z, found).unwrap();
    let o = orient(face, signs(Sign::Zero, Sign::Zero, Sign::Negative));
    assert_eq!(o.normal, AxisVector { x: 0, y: 0, z: 1 });
    assert!(o.front_face);
}

#[test]
fn ray_leaving_box_gets_inward_normal() {
    let face = Some(Face { axis: Axis::X, positive: true });
    let o = orient(face, signs(Sign::Positive, Sign::Negative, Sign::Zero));
    assert_eq!(o.normal, AxisVector { x: -1, y: 0, z: 0 });
    assert!(!o.front_face);
}

#[test]
fn grazing_ray_is_not_front_face() {
    let face = Some(Face { axis: Axis::Y, positive: true });
    let o = orient(face, signs(Sign::Positive, Sign::Zero, Sign::Negative));
    assert_eq!(o.normal, AxisVector { x: 0, y: -1, z: 0 });
    assert!(!o.front_face);
}

#[test]
fn reported_normal_never_points_along_ray() {
    let all = [Sign::Negative, Sign::Zero, Sign::Positive];
    let mut faces = vec![None];
    for axis in [Axis::X, Axis::Y, Axis::Z] {
        for positive in [false, true] {
            faces.push(Some(Face { axis, positive }));
        }
    }
    for face in faces {
        for x in all {
            for y in all {
                for z in all {
                    let s = signs(x, y, z);
                    let o = orient(face, s);
                    assert!(dot_with_signs(o.normal, s) <= 0);
                    assert_eq!(o.front_face, dot_with_signs(outward_normal(face), s) < 0);
                }
            }
        }
    }
}

#[test]
fn miss_on_one_axis_misses_the_box() {
    let steps = [
        (Axis::X, SlabAxis::Crossing { min_plane_first: true, near_tightened: true, empty: false }),
        (Axis::Y, SlabAxis::Parallel { inside: false }),
        (Axis::Z, SlabAxis::Crossing { min_plane_first: false, near_tightened: true, empty: false }),
    ];
    let mut face = Some(None);
    for (axis, found) in steps {
        face = face.and_then(|f| slab_step(f, axis, found));
    }
    assert_eq!(face, None);
}
