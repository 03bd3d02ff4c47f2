use vstd::prelude::*;

verus! {

/// The two roots of the ray-sphere quadratic, nearer one first.
#[derive(Clone, Copy, Debug, PartialEq, Eq, Structural)]
pub enum Root {
    Near,
    Far,
}

/// Chooses which root of the ray-sphere quadratic is the hit, given the order
/// keys of the near root, the far root and the least accepted distance
/// `t_min`. The near root is taken when it reaches `t_min`; failing that, the
/// far root when it does (so a ray that starts inside the sphere hits it at the
/// far root); otherwise the ray misses. With `near <= far` this is the smallest
/// root at or beyond `t_min`.
pub fn select_root(near: i64, far: i64, t_min: i64) -> (r: Option<Root>)
    ensures
        r == Some(Root::Near) <==> t_min <= near,
        r == Some(Root::Far) <==> near < t_min && t_min <= far,
        r is None <==> near < t_min && far < t_min,
{
    if near >= t_min {
        Some(Root::Near)
    } else if far >= t_min {
        Some(Root::Far)
    } else {
        None
    }
}

} // verus!
