use vec3::{render_components, Vec3};

fn v(x: i64, y: i64, z: i64) -> Vec3<i64> {
    Vec3 { x, y, z }
}

#[test]
fn default_is_zero() {
    let d: Vec3<i32> = Vec3::default();
    assert_eq!(d, Vec3 { x: 0, y: 0, z: 0 });
}

#[test]
fn get_reads_each_component() {
    let a = v(7, 8, 9);
    assert_eq!(a.get(0), Some(a.x));
    assert_eq!(a.get(1), Some(a.y));
    assert_eq!(a.get(2), Some(a.z));
}

#[test]
fn get_out_of_range_is_none() {
    let a = v(7, 8, 9);
    assert_eq!(a.get(3), None);
    assert_eq!(a.get(usize::MAX), None);
}

#[test]
fn get_mut_writes_one_component() {
    let mut a = v(7, 8, 9);
    *a.get_mut(1).unwrap() = 42;
    assert_eq!(a, v(7, 42, 9));
    assert!(a.get_mut(3).is_none());
    assert_eq!(a, v(7, 42, 9));
}

#[test]
fn add_sub_componentwise() {
    assert_eq!(v(1, 2, 3) + v(10, 20, 30), v(11, 22, 33));
    assert_eq!(v(1, 2, 3) - v(10, 20, 30), v(-9, -18, -27));
}

#[test]
fn add_then_sub_gives_back_start() {
    let a = v(3, -4, 5);
    let b = v(-100, 7, 1 << 40);
    assert_eq!(a + b - b, a);
}

#[test]
fn scale_then_divide_gives_back_start() {
    let a = v(3, -4, 5);
    assert_eq!(a * 2 / 2, a);
    let f = Vec3 { x: 0.1f64, y: -2.5, z: 1e10 };
    assert_eq!(f * 2.0 / 2.0, f);
}

#[test]
fn scalar_mul_div_rem() {
    assert_eq!(v(1, -2, 3) * 3, v(3, -6, 9));
    assert_eq!(v(7, -7, 9) / 2, v(3, -3, 4));
    assert_eq!(v(7, -7, 9) % 4, v(3, -3, 1));
}

#[test]
fn negation_and_not() {
    assert_eq!(-v(1, -2, 0), v(-1, 2, 0));
    let b = Vec3 { x: 0u8, y: 0xf0, z: 0xff };
    assert_eq!(!b, Vec3 { x: 0xff, y: 0x0f, z: 0 });
}

#[test]
fn bitwise_componentwise() {
    let a = Vec3 { x: 0b1100u8, y: 0xff, z: 0 };
    let b = Vec3 { x: 0b1010u8, y: 0x0f, z: 1 };
    assert_eq!(a & b, Vec3 { x: 0b1000, y: 0x0f, z: 0 });
    assert_eq!(a | b, Vec3 { x: 0b1110, y: 0xff, z: 1 });
    assert_eq!(a ^ b, Vec3 { x: 0b0110, y: 0xf0, z: 1 });
}

#[test]
fn shifts_by_scalar() {
    let a = Vec3 { x: 1u32, y: 3, z: 8 };
    assert_eq!(a << 2, Vec3 { x: 4, y: 12, z: 32 });
    assert_eq!(a >> 1, Vec3 { x: 0, y: 1, z: 4 });
}

#[test]
fn assign_variants() {
    let mut a = v(1, 2, 3);
    a.add_assign(v(1, 1, 1));
    assert_eq!(a, v(2, 3, 4));
    a.sub_assign(v(2, 2, 2));
    assert_eq!(a, v(0, 1, 2));
    a.mul_assign(5);
    assert_eq!(a, v(0, 5, 10));
    a.div_assign(2);
    assert_eq!(a, v(0, 2, 5));
    a.rem_assign(3);
    assert_eq!(a, v(0, 2, 2));
    a.shl_assign(3);
    assert_eq!(a, v(0, 16, 16));
    a.shr_assign(2);
    assert_eq!(a, v(0, 4, 4));
    a.bitor_assign(v(1, 1, 3));
    assert_eq!(a, v(1, 5, 7));
    a.bitand_assign(v(3, 6, 5));
    assert_eq!(a, v(1, 4, 5));
    a.bitxor_assign(v(1, 1, 1));
    assert_eq!(a, v(0, 5, 4));
}

#[test]
fn dot_value_and_commutes() {
    let a = v(1, 2, 3);
    let b = v(4, -5, 6);
    assert_eq!(a.dot(&b), 12);
    assert_eq!(a.dot(&b), b.dot(&a));
}

#[test]
fn len_squared_is_self_dot() {
    let a = v(2, -3, 6);
    assert_eq!(a.len_squared(), 49);
    assert_eq!(a.len_squared(), a.dot(&a));
}

#[test]
fn cross_value() {
    assert_eq!(v(1, 0, 0).cross(&v(0, 1, 0)), v(0, 0, 1));
    assert_eq!(v(1, 2, 3).cross(&v(4, 5, 6)), v(-3, 6, -3));
}

#[test]
fn cross_anticommutes() {
    let a = v(3, -7, 2);
    let b = v(-1, 4, 9);
    assert_eq!(a.cross(&b), -b.cross(&a));
}

#[test]
fn cross_with_self_is_zero() {
    let a = v(3, -7, 2);
    assert_eq!(a.cross(&a), v(0, 0, 0));
}

#[test]
fn elementwise_mul_example() {
    let a = v(2, 3, 4);
    let b = v(5, 6, 7);
    assert_eq!(a.elementwise_mul(&b), v(10, 18, 28));
}

#[test]
fn map_changes_type() {
    let a = v(1, -2, 3);
    let m: Vec3<bool> = a.map(|c| c > 0);
    assert_eq!(m, Vec3 { x: true, y: false, z: true });
    assert_eq!(a.map(|c| c * 10), v(10, -20, 30));
}

#[test]
fn reflect_formula_on_floats() {
    let d = Vec3 { x: 1.0f64, y: -1.0, z: 0.0 };
    let n = Vec3 { x: 0.0f64, y: 1.0, z: 0.0 };
    let r = d - n * (d.dot(&n) * 2.0);
    assert_eq!(r, Vec3 { x: 1.0, y: 1.0, z: 0.0 });
}

#[test]
fn render_decimal() {
    let a = Vec3 { x: 1, y: 2, z: 3 };
    let s = render_components(&format!("{}", a.x), &format!("{}", a.y), &format!("{}", a.z));
    assert_eq!(s, "[1, 2, 3]");
}

#[test]
fn render_lower_hex() {
    let a = Vec3 { x: 255, y: 0, z: 0 };
    let s = render_components(&format!("{:x}", a.x), &format!("{:x}", a.y), &format!("{:x}", a.z));
    assert_eq!(s, "[ff, 0, 0]");
}

#[test]
fn render_empty_components() {
    assert_eq!(render_components("", "", ""), "[, , ]");
}
