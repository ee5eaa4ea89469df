use bounce::vec3::Vector3;
use bounce::vec3::dot_product;
use bounce::vec3::reflect;

#[test]
fn dot_product_matches_formula() {
    let a = Vector3::new(1, 2, 3);
    let b = Vector3::new(4, 5, 6);
    assert_eq!(dot_product(a, b), 32);
}

#[test]
fn reflection_formula_flips_normal_component() {
    // v = (1, -2, 0.5) and n = (0, 1, 0), in thousandth ticks: the y
    // component flips sign, the others are unchanged.
    let v = Vector3::new(1000, -2000, 500);
    let n = Vector3::new(0, 1000, 0);
    assert_eq!(reflect(v, n), Vector3::new(1000, 2000, 500));
}

#[test]
fn reflection_across_x_axis_normal_flips_x() {
    let v = Vector3::new(-2000, 1000, -500);
    let n = Vector3::new(1000, 0, 0);
    assert_eq!(reflect(v, n), Vector3::new(2000, 1000, -500));
}

#[test]
fn reflection_twice_restores_velocity() {
    let v = Vector3::new(1000, -2000, 500);
    let n = Vector3::new(0, 1000, 0);
    let once = reflect(v, n);
    let twice = reflect(once, n);
    assert_eq!(twice, v);
}

#[test]
fn reflection_with_diagonal_unit_normal() {
    // n = (0.6, 0.8, 0) is a unit normal; v = (1, -2, 0.5) gives
    // v . n = -1, so v' = v + 2n = (2.2, -0.4, 0.5).
    let v = Vector3::new(1000, -2000, 500);
    let n = Vector3::new(600, 800, 0);
    assert_eq!(reflect(v, n), Vector3::new(2200, -400, 500));
}

#[test]
fn double_reflection_with_rounding_stays_within_tolerance() {
    // With the diagonal unit normal (0.6, 0.8, 0) the divisions round, so
    // reflecting twice gives back the original vector only to within a few
    // thousandths per component.
    let v = Vector3::new(833, 0, 0);
    let n = Vector3::new(600, 800, 0);
    let twice = reflect(reflect(v, n), n);
    assert_eq!(twice, Vector3::new(832, -1, 0));
    assert!((twice.x - v.x).abs() <= 7);
    assert!((twice.y - v.y).abs() <= 7);
    assert!((twice.z - v.z).abs() <= 7);
}

#[test]
fn reflection_of_tangent_velocity_is_identity() {
    // A velocity orthogonal to the normal is unchanged.
    let v = Vector3::new(1000, 0, -700);
    let n = Vector3::new(0, 1000, 0);
    assert_eq!(reflect(v, n), v);
}
