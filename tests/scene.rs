use raytracer::scene::nearest_member;

/// The key under which a distance is ordered: integers compare as the
/// distances do (the total order of double-precision values).
fn order_key(x: f64) -> i64 {
    let b = x.to_bits() as i64;
    b ^ ((((b >> 63) as u64) >> 1) as i64)
}

#[test]
fn nearest_of_two_spheres_on_one_ray() {
    // Sphere A at (0,0,-1) with radius 0.5 and sphere B at (0,0,-3) with radius 1,
    // seen from the origin along -z: A is hit at 0.5, B at 2.
    let hits = vec![Some(order_key(2.0)), Some(order_key(0.5))];
    assert_eq!(nearest_member(&hits), Some(1));
    let hits = vec![Some(order_key(0.5)), Some(order_key(2.0))];
    assert_eq!(nearest_member(&hits), Some(0));
}

#[test]
fn no_member_hit_gives_none() {
    assert_eq!(nearest_member(&vec![]), None);
    assert_eq!(nearest_member(&vec![None, None, None]), None);
}

#[test]
fn misses_between_hits_are_skipped() {
    let hits = vec![None, Some(order_key(4.0)), None, Some(order_key(3.5)), None];
    assert_eq!(nearest_member(&hits), Some(3));
}

#[test]
fn equal_distances_keep_the_first() {
    let hits = vec![Some(order_key(7.0)), Some(order_key(1.25)), Some(order_key(1.25))];
    assert_eq!(nearest_member(&hits), Some(1));
}

#[test]
fn order_keys_follow_the_distances() {
    let ts = [0.01, 0.5, 1.0, 2.0, 1e300, f64::INFINITY];
    for w in ts.windows(2) {
        assert!(order_key(w[0]) < order_key(w[1]));
    }
    let hits: Vec<Option<i64>> = ts.iter().rev().map(|t| Some(order_key(*t))).collect();
    assert_eq!(nearest_member(&hits), Some(ts.len() - 1));
}
