use spyder_math::{Numeric, NumericAbs, NumericSigNum};
use spyder_math::{Vec2u, Vec3i};
use spyder_math::utils::reflect_on_normal;
use spyder_math::vector::Vector;

#[test]
fn constants_of_the_component_types() {
    assert_eq!(<i64 as Numeric>::zero(), 0);
    assert_eq!(<i64 as Numeric>::one(), 1);
    assert_eq!(<i64 as Numeric>::two(), 2);
    assert_eq!(<i64 as Numeric>::min_value(), i64::MIN);
    assert_eq!(<i64 as Numeric>::max_value(), i64::MAX);
    assert_eq!(<u32 as Numeric>::min_value(), 0);
    assert_eq!(<u32 as Numeric>::max_value(), u32::MAX);
}

#[test]
fn arithmetic_is_exact() {
    assert_eq!(7i64.numeric_add(5), 12);
    assert_eq!(7i64.numeric_sub(9), -2);
    assert_eq!(7i64.numeric_mul(-3), -21);
    assert_eq!(7i64.numeric_div(2), 3);
    assert_eq!(7u32.numeric_add(5), 12);
    assert_eq!(7usize.numeric_div(3), 2);
}

#[test]
fn ordering_helpers() {
    assert_eq!(3i64.numeric_min(8), 3);
    assert_eq!(3i64.numeric_max(8), 8);
    assert_eq!(5i64.numeric_clamp(0, 4), 4);
    assert_eq!((-5i64).numeric_clamp(0, 4), 0);
    assert_eq!(2i64.numeric_clamp(0, 4), 2);
    assert_eq!(9u64.numeric_min(4), 4);
}

#[test]
fn signum_and_absolute_value() {
    assert_eq!(17i64.signum_numeric(), 1);
    assert_eq!((-17i64).signum_numeric(), -1);
    assert_eq!(0i64.signum_numeric(), 0);
    assert_eq!(17i32.numeric_abs(), 17);
    assert_eq!((-17i32).numeric_abs(), 17);
    assert_eq!((-17isize).signum_numeric(), -1);
}

#[test]
fn integer_aliases_build_vectors() {
    let v: Vec3i = Vector::<i32, 3>::new(1, -2, 3);
    assert_eq!(v.as_array(), [1, -2, 3]);
    let u: Vec2u = Vector::<usize, 2>::new(4, 5);
    assert_eq!(u.as_array(), [4, 5]);
}

#[test]
fn reflection_about_the_vertical_axis_mirrors() {
    let incident = Vector::<i64, 3>::new(1, -1, 0);
    let normal = Vector::<i64, 3>::new(0, 1, 0);
    let r = reflect_on_normal(incident, normal);
    assert_eq!(r.as_array(), [1, 1, 0]);
}

#[test]
fn reflection_of_a_normal_hit_reverses() {
    let incident = Vector::<i64, 3>::new(0, 0, -4);
    let normal = Vector::<i64, 3>::new(0, 0, 1);
    let r = reflect_on_normal(incident, normal);
    assert_eq!(r.as_array(), [0, 0, 4]);
}

#[test]
fn reflection_leaves_tangential_vectors_alone() {
    let incident = Vector::<i64, 3>::new(3, 0, 5);
    let normal = Vector::<i64, 3>::new(0, 1, 0);
    let r = reflect_on_normal(incident, normal);
    assert_eq!(r.as_array(), [3, 0, 5]);
}
