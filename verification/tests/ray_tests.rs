use spyder_math::vector::Vector;
use spyder_math::Ray;

#[test]
fn ray_at_walks_along_the_direction() {
    let ray = Ray::new(Vector::<i64, 3>::new(10, -4, 2), Vector::<i64, 3>::new(3, 5, -7));
    assert_eq!(ray.at(0).as_array(), [10, -4, 2]);
    assert_eq!(ray.at(1).as_array(), [13, 1, -5]);
    assert_eq!(ray.at(2).as_array(), [16, 6, -12]);
    assert_eq!(ray.at(-1).as_array(), [7, -9, 9]);
}

#[test]
fn ray_at_is_affine_on_concrete_parameters() {
    // Differences of parametric points scale exactly with differences of
    // the parameters.
    let ray = Ray::new(Vector::<i64, 3>::new(10, -4, 2), Vector::<i64, 3>::new(3, 5, -7));
    let (t1, t2, t3) = (2i64, 9i64, 5i64);
    let lhs = ray.at(t3).sub_by_component(ray.at(t1)).scale(t2 - t1);
    let rhs = ray.at(t2).sub_by_component(ray.at(t1)).scale(t3 - t1);
    assert_eq!(lhs.as_array(), rhs.as_array());
}
