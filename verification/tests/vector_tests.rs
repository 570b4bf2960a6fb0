use spyder_math::vector::Vector;
use spyder_math::{Extend, XY, XYZ, XYZW};

#[test]
fn new_and_accessors_two() {
    let v = Vector::<i64, 2>::new(3, 4);
    assert_eq!(v.x(), 3);
    assert_eq!(v.y(), 4);
}

#[test]
fn new_and_accessors_three() {
    let v = Vector::<i64, 3>::new(1, 2, 3);
    assert_eq!(v.x(), 1);
    assert_eq!(v.y(), 2);
    assert_eq!(v.z(), 3);
}

#[test]
fn new_and_accessors_four() {
    let v = Vector::<i64, 4>::new(1, 2, 3, 4);
    assert_eq!(v.x(), 1);
    assert_eq!(v.y(), 2);
    assert_eq!(v.z(), 3);
    assert_eq!(v.w(), 4);
}

#[test]
fn new_from_slice_round_trips_through_as_array() {
    let v = Vector::<i64, 5>::new_from_slice([9, 8, 7, 6, 5]);
    assert_eq!(v.as_array(), [9, 8, 7, 6, 5]);
}

#[test]
fn mutable_accessors_write_through() {
    let mut v = Vector::<i64, 3>::new(1, 2, 3);
    *v.x_mut() = 10;
    *v.y_mut() = 20;
    *v.z_mut() = 30;
    assert_eq!(v.as_array(), [10, 20, 30]);
}

#[test]
fn mutable_accessors_four_write_through() {
    let mut v = Vector::<i64, 4>::new(1, 2, 3, 4);
    *v.w_mut() = 40;
    *v.x_mut() = -1;
    assert_eq!(v.as_array(), [-1, 2, 3, 40]);
}

#[test]
fn dot_of_small_vectors() {
    let a = Vector::<i64, 3>::new(1, 2, 3);
    let b = Vector::<i64, 3>::new(4, 5, 6);
    assert_eq!(a.dot(b), 32);
}

#[test]
fn dot_with_negative_components() {
    let a = Vector::<i64, 3>::new(1, -1, 0);
    let b = Vector::<i64, 3>::new(0, 1, 0);
    assert_eq!(a.dot(b), -1);
}

#[test]
fn dot_of_two_component_vectors() {
    let a = Vector::<i64, 2>::new(-3, 7);
    let b = Vector::<i64, 2>::new(5, 2);
    assert_eq!(a.dot(b), -1);
}

#[test]
fn length_squared_sums_squares() {
    let v = Vector::<i64, 3>::new(2, -3, 6);
    assert_eq!(v.length_squared(), 49);
}

#[test]
fn swizzle_xy_takes_first_two() {
    let v = Vector::<i64, 3>::new(1, 2, 3);
    let s = v.xy();
    assert_eq!(s.as_array(), [1, 2]);
}

#[test]
fn swizzle_xy_of_one_component_fills_zero() {
    let v = Vector::<i64, 1>::new_from_slice([7]);
    let s = v.xy();
    assert_eq!(s.as_array(), [7, 0]);
}

#[test]
fn swizzle_xz_skips_second() {
    let v = Vector::<i64, 3>::new(1, 2, 3);
    let s = v.xz();
    assert_eq!(s.as_array(), [1, 3]);
}

#[test]
fn swizzle_xz_of_two_components_fills_zero() {
    let v = Vector::<i64, 2>::new(1, 2);
    let s = v.xz();
    assert_eq!(s.as_array(), [1, 0]);
}

#[test]
fn swizzle_xyz_of_four_drops_last() {
    let v = Vector::<i64, 4>::new(1, 2, 3, 4);
    let s = v.xyz();
    assert_eq!(s.as_array(), [1, 2, 3]);
}

#[test]
fn swizzle_xyzw_repeats_third_component() {
    let v = Vector::<i64, 4>::new(1, 2, 3, 4);
    let s = v.xyzw();
    assert_eq!(s.as_array(), [1, 2, 3, 3]);
}

#[test]
fn swizzle_zxy_rotates_components() {
    let v = Vector::<i64, 3>::new(1, 2, 3);
    let s = v.zxy();
    assert_eq!(s.as_array(), [3, 1, 2]);
}

#[test]
fn extend_lengthens_by_one() {
    let v1 = Vector::<i64, 1>::new_from_slice([1]);
    let v2 = v1.extend(2);
    assert_eq!(v2.as_array(), [1, 2]);
    let v3 = v2.extend(3);
    assert_eq!(v3.as_array(), [1, 2, 3]);
    let v4 = v3.extend(4);
    assert_eq!(v4.as_array(), [1, 2, 3, 4]);
}

#[test]
fn named_fields_from_vectors() {
    let a = XY::from(Vector::<i64, 2>::new(1, 2));
    assert_eq!(a.x, 1);
    assert_eq!(a.y, 2);
    let b = XYZ::from(Vector::<i64, 3>::new(4, 5, 6));
    assert_eq!(b.x, 4);
    assert_eq!(b.y, 5);
    assert_eq!(b.z, 6);
    let c = XYZW::from(Vector::<i64, 4>::new(7, 8, 9, 10));
    assert_eq!(c.x, 7);
    assert_eq!(c.y, 8);
    assert_eq!(c.z, 9);
    assert_eq!(c.w, 10);
}

#[test]
fn componentwise_sum_and_difference() {
    let a = Vector::<i64, 3>::new(1, 2, 3);
    let b = Vector::<i64, 3>::new(10, 20, 30);
    assert_eq!(a.add_by_component(b).as_array(), [11, 22, 33]);
    assert_eq!(b.sub_by_component(a).as_array(), [9, 18, 27]);
}

#[test]
fn componentwise_product_and_scale() {
    let a = Vector::<i64, 3>::new(1, -2, 3);
    let b = Vector::<i64, 3>::new(4, 5, -6);
    assert_eq!(a.mul_by_component(b).as_array(), [4, -10, -18]);
    assert_eq!(a.scale(-2).as_array(), [-2, 4, -6]);
}

#[test]
fn cross_of_axes_gives_third_axis() {
    let x_axis = Vector::<i64, 3>::new(1, 0, 0);
    let y_axis = Vector::<i64, 3>::new(0, 1, 0);
    let z_axis = Vector::<i64, 3>::new(0, 0, 1);
    assert_eq!(x_axis.cross(y_axis).as_array(), z_axis.as_array());
    assert_eq!(y_axis.cross(z_axis).as_array(), x_axis.as_array());
    assert_eq!(z_axis.cross(x_axis).as_array(), y_axis.as_array());
}

#[test]
fn cross_is_anticommutative_on_sample() {
    let a = Vector::<i64, 3>::new(2, 3, 4);
    let b = Vector::<i64, 3>::new(5, 6, 7);
    let ab = a.cross(b);
    let ba = b.cross(a);
    assert_eq!(ab.as_array(), [-3, 6, -3]);
    assert_eq!(ba.as_array(), [3, -6, 3]);
}

#[test]
fn parametric_points_are_affine_on_concrete_values() {
    // A point along a direction is origin + t * direction; differences of
    // points scale exactly with differences of the parameters.
    let origin = Vector::<i64, 3>::new(10, -4, 2);
    let direction = Vector::<i64, 3>::new(3, 5, -7);
    let at = |t: i64| origin.add_by_component(direction.scale(t));
    let (t1, t2, t3) = (2i64, 9i64, 5i64);
    let lhs = at(t3).sub_by_component(at(t1)).scale(t2 - t1);
    let rhs = at(t2).sub_by_component(at(t1)).scale(t3 - t1);
    assert_eq!(lhs.as_array(), rhs.as_array());
}

#[test]
fn dot_of_large_components_stays_exact() {
    let v = Vector::<i64, 3>::new(3_000_000_000, 0, 0);
    assert_eq!(v.dot(v), 9_000_000_000_000_000_000);
    assert_eq!(v.length_squared(), 9_000_000_000_000_000_000);
}

#[test]
fn scaling_by_zero_gives_the_zero_vector() {
    let v = Vector::<i64, 3>::new(4, -5, 6);
    assert_eq!(v.scale(0).as_array(), [0, 0, 0]);
}

#[test]
fn dot_on_single_component_vectors() {
    let a = Vector::<i64, 1>::new_from_slice([-6]);
    let b = Vector::<i64, 1>::new_from_slice([7]);
    assert_eq!(a.dot(b), -42);
}
