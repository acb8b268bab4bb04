use raytracer::cube::{nearest_face, Axis, Face};
use raytracer::trace::{lit, nearest_hit};

fn key(d: f64) -> u64 {
    assert!(d >= 0.0);
    d.to_bits()
}

#[test]
fn nearest_hit_of_no_primitives() {
    assert_eq!(nearest_hit(&Vec::new()), None);
}

#[test]
fn nearest_hit_when_every_primitive_misses() {
    assert_eq!(nearest_hit(&vec![None, None, None]), None);
}

#[test]
fn nearest_hit_picks_minimum_distance() {
    let hits = vec![Some(key(7.5)), None, Some(key(3.0)), Some(key(4.25))];
    assert_eq!(nearest_hit(&hits), Some(2));
}

#[test]
fn nearest_hit_ties_go_to_first_in_list() {
    let hits = vec![None, Some(key(3.0)), Some(key(5.0)), Some(key(3.0))];
    assert_eq!(nearest_hit(&hits), Some(1));
}

#[test]
fn nearest_hit_at_zero_distance() {
    let hits = vec![Some(key(1e-9)), Some(key(0.0))];
    assert_eq!(nearest_hit(&hits), Some(1));
}

#[test]
fn point_light_blocked_by_nearer_occluder() {
    assert!(!lit(Some(key(2.0)), Some(key(5.0))));
}

#[test]
fn point_light_not_blocked_by_hit_beyond_it() {
    assert!(lit(Some(key(6.0)), Some(key(5.0))));
}

#[test]
fn point_light_not_blocked_by_hit_at_its_own_distance() {
    assert!(lit(Some(key(5.0)), Some(key(5.0))));
}

#[test]
fn unobstructed_lights_are_lit() {
    assert!(lit(None, Some(key(5.0))));
    assert!(lit(None, None));
}

#[test]
fn directional_light_blocked_by_any_hit() {
    assert!(!lit(Some(key(1e300)), None));
}

/// Keys of the distances from `p` to the faces of a cube of side 1 centered at the origin.
fn unit_cube_face_keys(p: [f64; 3]) -> [u64; 6] {
    [
        key((p[0] + 0.5).abs()),
        key((p[0] - 0.5).abs()),
        key((p[1] + 0.5).abs()),
        key((p[1] - 0.5).abs()),
        key((p[2] + 0.5).abs()),
        key((p[2] - 0.5).abs()),
    ]
}

#[test]
fn cube_normal_on_positive_x_face() {
    let face = nearest_face(&unit_cube_face_keys([0.5, 0.0, 0.0]));
    assert_eq!(face, Face::PosX);
    assert_eq!(face.normal(), (1, 0, 0));
}

#[test]
fn cube_normal_on_negative_x_face() {
    let face = nearest_face(&unit_cube_face_keys([-0.5, 0.0, 0.0]));
    assert_eq!(face, Face::NegX);
    assert_eq!(face.normal(), (-1, 0, 0));
}

#[test]
fn cube_faces_of_other_axes() {
    let top = nearest_face(&unit_cube_face_keys([0.1, 0.5, -0.2]));
    assert_eq!(top, Face::PosY);
    assert_eq!(top.normal(), (0, 1, 0));
    let back = nearest_face(&unit_cube_face_keys([0.1, 0.2, -0.5]));
    assert_eq!(back, Face::NegZ);
    assert_eq!(back.normal(), (0, 0, -1));
}

#[test]
fn cube_face_ties_follow_axis_order() {
    assert_eq!(nearest_face(&unit_cube_face_keys([0.5, 0.5, 0.0])), Face::PosX);
    assert_eq!(nearest_face(&unit_cube_face_keys([0.0, -0.5, -0.5])), Face::NegY);
    assert_eq!(nearest_face(&[3, 3, 3, 3, 3, 3]), Face::NegX);
    assert_eq!(nearest_face(&[9, 9, 9, 9, 9, 2]), Face::PosZ);
}

#[test]
fn cube_texture_axes() {
    assert_eq!(Face::PosX.texture_axes(), (Axis::Z, Axis::Y));
    assert_eq!(Face::NegY.texture_axes(), (Axis::X, Axis::Z));
    assert_eq!(Face::PosZ.texture_axes(), (Axis::X, Axis::Y));
}
