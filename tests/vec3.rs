use radiant::v3::V3;
use radiant::vec3::{Vec3, DOT_LIMIT, REFLECT_LIMIT};

fn parts(v: Vec3<i64>) -> (i64, i64, i64) {
    (v.x(), v.y(), v.z())
}

#[test]
fn new_and_getters() {
    let v = Vec3::new(1i64, -2, 3);
    assert_eq!(parts(v), (1, -2, 3));
    assert_eq!(v.index(0), 1);
    assert_eq!(v.index(1), -2);
    assert_eq!(v.index(2), 3);
}

#[test]
fn generic_over_component_type() {
    let v = Vec3::new(0.5f32, 0.7, 1.0);
    assert_eq!(v.x(), 0.5);
    assert_eq!(v.y(), 0.7);
    assert_eq!(v.z(), 1.0);
}

#[test]
fn dot_product() {
    let a = Vec3::new(1i64, 2, 3);
    let b = Vec3::new(4i64, -5, 6);
    assert_eq!(a.dot(&b), 12);
    assert_eq!(a.len_squared(), 14);
}

#[test]
fn dot_at_the_limit() {
    let a = Vec3::new(DOT_LIMIT, DOT_LIMIT, DOT_LIMIT);
    let b = Vec3::new(-DOT_LIMIT, -DOT_LIMIT, -DOT_LIMIT);
    assert_eq!(a.len_squared(), 3 * (1i64 << 60));
    assert_eq!(a.dot(&b), -3 * (1i64 << 60));
}

#[test]
fn cross_is_right_handed() {
    let x = Vec3::new(1i64, 0, 0);
    let y = Vec3::new(0i64, 1, 0);
    assert_eq!(parts(x.cross(&y)), (0, 0, 1));
    assert_eq!(parts(y.cross(&x)), (0, 0, -1));
    let a = Vec3::new(2i64, 3, 4);
    let b = Vec3::new(5i64, 6, 7);
    assert_eq!(parts(a.cross(&b)), (-3, 6, -3));
}

#[test]
fn arithmetic() {
    let a = Vec3::new(1i64, 2, 3);
    let b = Vec3::new(10i64, 20, 30);
    assert_eq!(parts(a.add(b)), (11, 22, 33));
    assert_eq!(parts(b.sub(a)), (9, 18, 27));
    assert_eq!(parts(a.neg()), (-1, -2, -3));
    assert_eq!(parts(a.mul(3)), (3, 6, 9));
    let mut c = a;
    c.add_assign(b);
    assert_eq!(parts(c), (11, 22, 33));
    c.mul_assign(2);
    assert_eq!(parts(c), (22, 44, 66));
    c.div_assign(4);
    assert_eq!(parts(c), (5, 11, 16));
}

#[test]
fn division_rounds_toward_zero() {
    let v = Vec3::new(7i64, -7, 6);
    assert_eq!(parts(v.div(2)), (3, -3, 3));
    assert_eq!(parts(v.div(-2)), (-3, 3, -3));
    assert_eq!(parts(v.div(-1)), (-7, 7, -6));
    let m = Vec3::new(i64::MIN, 5, i64::MAX);
    assert_eq!(parts(m.div(i64::MIN)), (1, 0, 0));
}

#[test]
fn division_by_zero_gives_zero_vector() {
    let v = Vec3::new(7i64, -7, 6);
    assert_eq!(parts(v.div(0)), (0, 0, 0));
}

#[test]
fn near_zero_only_for_origin() {
    assert!(Vec3::new(0i64, 0, 0).near_zero());
    assert!(!Vec3::new(0i64, 0, 1).near_zero());
    assert!(!Vec3::new(-1i64, -1, -1).near_zero());
}

#[test]
fn reflect_about_axis() {
    let n = Vec3::new(0i64, 1, 0);
    let v = Vec3::new(3i64, -4, 5);
    let r = v.reflect(&n);
    assert_eq!(parts(r), (3, 4, 5));
    assert_eq!(r.dot(&n), -v.dot(&n));
}

#[test]
fn reflect_negates_normal_component_on_samples() {
    let normals = [
        Vec3::new(1i64, 0, 0),
        Vec3::new(0i64, -1, 0),
        Vec3::new(0i64, 0, 1),
    ];
    let vs = [
        Vec3::new(2i64, 7, -3),
        Vec3::new(-100i64, 0, 55),
        Vec3::new(REFLECT_LIMIT, -REFLECT_LIMIT, REFLECT_LIMIT),
    ];
    for n in normals.iter() {
        for v in vs.iter() {
            assert_eq!(v.reflect(n).dot(n), -v.dot(n));
        }
    }
}

#[test]
fn reflect_non_unit_normal() {
    let n = Vec3::new(1i64, 1, 0);
    let v = Vec3::new(1i64, 0, 0);
    assert_eq!(parts(v.reflect(&n)), (-1, -2, 0));
}

#[test]
fn iterates_components_in_order() {
    let mut it = Vec3::new(4i64, 5, 6).into_iter();
    assert_eq!(it.next(), Some(4));
    assert_eq!(it.next(), Some(5));
    assert_eq!(it.next(), Some(6));
    assert_eq!(it.next(), None);
    assert_eq!(it.next(), None);
}

#[test]
fn v3_operations() {
    let a = V3 { x: 1i64, y: 2, z: 3 };
    let b = V3 { x: 4i64, y: 5, z: 6 };
    let s = a.add(b);
    assert_eq!((s.x, s.y, s.z), (5, 7, 9));
    let m = s.mul(2);
    assert_eq!((m.x, m.y, m.z), (10, 14, 18));
    let d = m.div(-4);
    assert_eq!((d.x, d.y, d.z), (-2, -3, -4));
    assert_eq!(d.index(1), -3);
    let z = d.div(0);
    assert_eq!((z.x, z.y, z.z), (0, 0, 0));
    let mut c = V3 { x: 1i64, y: 1, z: 1 };
    c.add_assign(V3 { x: 1, y: 2, z: 3 });
    c.mul_assign(5);
    c.div_assign(2);
    assert_eq!((c.x, c.y, c.z), (5, 7, 10));
}
