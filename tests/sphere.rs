use raytracer::sphere::{select_root, Root};

fn order_key(x: f64) -> i64 {
    let b = x.to_bits() as i64;
    b ^ ((((b >> 63) as u64) >> 1) as i64)
}

const T_MIN: f64 = 0.01;

#[test]
fn ray_from_outside_hits_near_root() {
    // Sphere at (0,0,-3), radius 1, ray from the origin along -z: roots 2 and 4.
    assert_eq!(
        select_root(order_key(2.0), order_key(4.0), order_key(T_MIN)),
        Some(Root::Near)
    );
}

#[test]
fn ray_from_inside_hits_far_root() {
    // Sphere at the origin, radius 5, ray from its centre: roots -5 and 5.
    assert_eq!(
        select_root(order_key(-5.0), order_key(5.0), order_key(T_MIN)),
        Some(Root::Far)
    );
}

#[test]
fn near_root_within_t_min_is_skipped() {
    // A scattered ray leaving the surface: near root just above zero.
    assert_eq!(
        select_root(order_key(1e-9), order_key(1.5), order_key(T_MIN)),
        Some(Root::Far)
    );
}

#[test]
fn sphere_behind_the_ray_is_missed() {
    assert_eq!(
        select_root(order_key(-4.0), order_key(-2.0), order_key(T_MIN)),
        None
    );
    assert_eq!(select_root(order_key(0.0), order_key(0.005), order_key(T_MIN)), None);
}

#[test]
fn root_at_t_min_is_accepted() {
    assert_eq!(
        select_root(order_key(T_MIN), order_key(3.0), order_key(T_MIN)),
        Some(Root::Near)
    );
    assert_eq!(
        select_root(order_key(-1.0), order_key(T_MIN), order_key(T_MIN)),
        Some(Root::Far)
    );
}
