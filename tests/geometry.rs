use raytracing::face::{classify_face, Face};
use raytracing::nearest::{distance_key, nearest_hit};

#[test]
fn corner_point_takes_first_face_in_order() {
    // A point at the corner (x-max, y-min, z-max) is near three faces.
    let f = classify_face([false, true, true, false, false, true]);
    assert_eq!(f, Face::XMax);
    assert_eq!(f.normal(), (1, 0, 0));
    // At the x-min / y-max edge x-min wins.
    assert_eq!(classify_face([true, false, false, true, false, false]), Face::XMin);
    // At the y-max / z-min edge y-max wins.
    assert_eq!(classify_face([false, false, false, true, true, false]), Face::YMax);
}

#[test]
fn no_close_face_gives_z_max() {
    assert_eq!(classify_face([false; 6]), Face::ZMax);
    assert_eq!(classify_face([false, false, false, false, true, false]), Face::ZMin);
}

#[test]
fn normals_are_outward_axis_units() {
    assert_eq!(Face::XMin.normal(), (-1, 0, 0));
    assert_eq!(Face::YMin.normal(), (0, -1, 0));
    assert_eq!(Face::YMax.normal(), (0, 1, 0));
    assert_eq!(Face::ZMin.normal(), (0, 0, -1));
    assert_eq!(Face::ZMax.normal(), (0, 0, 1));
}

#[test]
fn uv_axes_follow_the_face() {
    assert_eq!(Face::XMin.uv_axes(), (1, 2));
    assert_eq!(Face::YMax.uv_axes(), (0, 2));
    assert_eq!(Face::ZMax.uv_axes(), (0, 1));
    assert_eq!(Face::YMin.axis(), 1);
}

fn key(d: f32) -> u32 {
    distance_key(d.to_bits())
}

#[test]
fn distance_keys_keep_order() {
    assert!(key(1.0) < key(2.0));
    assert!(key(0.0) < key(0.5));
    assert!(key(-1.0) < key(0.0));
    assert!(key(-2.0) < key(-1.0));
    assert_eq!(distance_key(0), 0x8000_0000);
    assert_eq!(distance_key(0xFFFF_FFFF), 0);
}

#[test]
fn nearer_of_two_overlapping_hits_wins() {
    let keys = vec![Some(key(3.0)), None, Some(key(2.0))];
    assert_eq!(nearest_hit(&keys), Some(2));
    let keys = vec![Some(key(1.5)), Some(key(2.0))];
    assert_eq!(nearest_hit(&keys), Some(0));
}

#[test]
fn equal_distances_keep_first_in_order() {
    let keys = vec![None, Some(key(2.0)), Some(key(2.0)), Some(key(4.0))];
    assert_eq!(nearest_hit(&keys), Some(1));
}

#[test]
fn no_hit_gives_none() {
    assert_eq!(nearest_hit(&vec![None, None]), None);
    assert_eq!(nearest_hit(&vec![]), None);
}
