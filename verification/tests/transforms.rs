use mat3::Axis;
use mat3::Mat3;
use mat3::Vec3;

#[test]
fn test_new_sets_entries_row_major() {
    let m = Mat3::new(1, 2, 3, 4, 5, 6, 7, 8, 9);
    assert_eq!(m.x0, 1);
    assert_eq!(m.y0, 2);
    assert_eq!(m.z0, 3);
    assert_eq!(m.x1, 4);
    assert_eq!(m.y1, 5);
    assert_eq!(m.z1, 6);
    assert_eq!(m.x2, 7);
    assert_eq!(m.y2, 8);
    assert_eq!(m.z2, 9);
}

#[test]
fn test_copy_overwrites_all_entries() {
    let mut m = Mat3::new(1, 1, 1, 1, 1, 1, 1, 1, 1);
    m.copy(Mat3::new(1, 2, 3, 4, 5, 6, 7, 8, 9));
    assert_eq!(m, Mat3::new(1, 2, 3, 4, 5, 6, 7, 8, 9));
}

#[test]
fn test_mult_concrete_product() {
    let mut a = Mat3::new(1, 2, 3, 4, 5, 6, 7, 8, 10);
    a.mult(Mat3::new(2, 0, 1, 1, 3, 0, 0, 1, 4));
    assert_eq!(a, Mat3::new(4, 9, 13, 13, 21, 28, 22, 34, 47));
}

#[test]
fn test_mult_identity_leaves_matrix_unchanged() {
    let mut m = Mat3::new(1, 2, 3, 4, 5, 6, 7, 8, 9);
    m.mult(Mat3::new(1, 0, 0, 0, 1, 0, 0, 0, 1));
    assert_eq!(m, Mat3::new(1, 2, 3, 4, 5, 6, 7, 8, 9));
}

#[test]
fn test_mult_associative() {
    // (a * b) * c
    let mut left = Mat3::new(1, 2, 3, 4, 5, 6, 7, 8, 10);
    left.mult(Mat3::new(2, 0, 1, 1, 3, 0, 0, 1, 4));
    left.mult(Mat3::new(1, 1, 0, 0, 2, 1, 3, 0, 1));

    // a * (b * c)
    let mut bc = Mat3::new(2, 0, 1, 1, 3, 0, 0, 1, 4);
    bc.mult(Mat3::new(1, 1, 0, 0, 2, 1, 3, 0, 1));
    let mut right = Mat3::new(1, 2, 3, 4, 5, 6, 7, 8, 10);
    right.mult(bc);

    assert_eq!(left, right);
}

#[test]
fn test_mult_not_commutative() {
    // A quarter turn about X followed by one about Z ...
    let mut ab = Mat3::new(1, 0, 0, 0, 1, 0, 0, 0, 1);
    ab.rotation(Axis::X, 0, 1);
    ab.rotation(Axis::Z, 0, 1);

    // ... differs from the same two turns in the other order.
    let mut ba = Mat3::new(1, 0, 0, 0, 1, 0, 0, 0, 1);
    ba.rotation(Axis::Z, 0, 1);
    ba.rotation(Axis::X, 0, 1);

    assert_ne!(ab, ba);
}

#[test]
fn test_rotation_quarter_turns_exact() {
    let mut x = Mat3::new(1, 0, 0, 0, 1, 0, 0, 0, 1);
    x.rotation(Axis::X, 0, 1);
    assert_eq!(x, Mat3::new(1, 0, 0, 0, 0, -1, 0, 1, 0));

    let mut y = Mat3::new(1, 0, 0, 0, 1, 0, 0, 0, 1);
    y.rotation(Axis::Y, 0, 1);
    assert_eq!(y, Mat3::new(0, 0, 1, 0, 1, 0, -1, 0, 0));

    let mut z = Mat3::new(1, 0, 0, 0, 1, 0, 0, 0, 1);
    z.rotation(Axis::Z, 0, 1);
    assert_eq!(z, Mat3::new(0, -1, 0, 1, 0, 0, 0, 0, 1));
}

#[test]
fn test_rotation_orthogonal_quarter_turn() {
    for axis in [Axis::X, Axis::Y, Axis::Z] {
        let mut r = Mat3::new(1, 0, 0, 0, 1, 0, 0, 0, 1);
        r.rotation(axis, 0, 1);
        // transpose of r, times r, is the identity
        let mut t = Mat3::new(r.x0, r.x1, r.x2, r.y0, r.y1, r.y2, r.z0, r.z1, r.z2);
        t.mult(r);
        assert_eq!(t, Mat3::new(1, 0, 0, 0, 1, 0, 0, 0, 1));
    }
}

#[test]
fn test_rotation_orthogonal_half_turn() {
    for axis in [Axis::X, Axis::Y, Axis::Z] {
        let mut r = Mat3::new(1, 0, 0, 0, 1, 0, 0, 0, 1);
        r.rotation(axis, -1, 0);
        let mut t = Mat3::new(r.x0, r.x1, r.x2, r.y0, r.y1, r.y2, r.z0, r.z1, r.z2);
        t.mult(r);
        assert_eq!(t, Mat3::new(1, 0, 0, 0, 1, 0, 0, 0, 1));
    }
}

#[test]
fn test_rotation_compose_same_axis() {
    // Two quarter turns about the same axis equal one half turn
    // (cosine -1, sine 0, by the angle-addition formulas).
    for axis in [Axis::X, Axis::Y, Axis::Z] {
        let mut twice = Mat3::new(1, 0, 0, 0, 1, 0, 0, 0, 1);
        twice.rotation(axis, 0, 1);
        twice.rotation(axis, 0, 1);

        let mut once = Mat3::new(1, 0, 0, 0, 1, 0, 0, 0, 1);
        once.rotation(axis, -1, 0);

        assert_eq!(twice, once);
    }
}

#[test]
fn test_rotation_zero_angle_leaves_matrix_unchanged() {
    for axis in [Axis::X, Axis::Y, Axis::Z] {
        let mut m = Mat3::new(1, 2, 3, 4, 5, 6, 7, 8, 9);
        m.rotation(axis, 1, 0);
        assert_eq!(m, Mat3::new(1, 2, 3, 4, 5, 6, 7, 8, 9));
    }
}

#[test]
fn test_translate_adds_components() {
    let mut v = Vec3::new(10, 20, 30);
    v.translate(1, 2, 3);
    assert_eq!(v, Vec3::new(11, 22, 33));
}

#[test]
fn test_translate_roundtrip() {
    let mut v = Vec3::new(7, -4, 9);
    v.translate(1, 2, 3);
    v.translate(-1, -2, -3);
    assert_eq!(v, Vec3::new(7, -4, 9));
}

#[test]
fn test_apply_identity() {
    let m = Mat3::new(1, 0, 0, 0, 1, 0, 0, 0, 1);
    let r = m.apply(Vec3::new(1, 2, 3));
    assert_eq!(r, Vec3::new(1, 2, 3));
}

#[test]
fn test_apply_quarter_turn_z() {
    let mut m = Mat3::new(1, 0, 0, 0, 1, 0, 0, 0, 1);
    m.rotation(Axis::Z, 0, 1);
    let r = m.apply(Vec3::new(1, 0, 0));
    assert_eq!(r, Vec3::new(0, 1, 0));
}

#[test]
fn test_apply_concrete_product() {
    let m = Mat3::new(1, 2, 3, 4, 5, 6, 7, 8, 9);
    let r = m.apply(Vec3::new(1, 1, 1));
    assert_eq!(r, Vec3::new(6, 15, 24));
}
