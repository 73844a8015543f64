//! Ray traversal: how far a ray travels over the grid before it is stopped.
//!
//! A ray leaves its origin in a fixed direction and is probed at the
//! distances `step`, `2 * step`, `3 * step`, and so on. It stops at the first
//! probe that lies in a wall or outside the grid, and it gives up once a probe
//! has reached the far plane at distance `depth`.

use vstd::prelude::*;
use crate::fixed::{floor_to_units, floor_units, fmul, multiply};
use crate::grid::Grid;

verus! {

/// A ray: where it starts, and how far it moves along each axis per unit of
/// distance. All four are fixed-point numbers.
#[derive(Clone, Copy, Debug, PartialEq, Eq, Structural)]
pub struct Ray {
    pub x: i64,
    pub y: i64,
    pub eye_x: i64,
    pub eye_y: i64,
}

/// The x coordinate of the point at distance `d` along the ray.
pub open spec fn point_x(ray: Ray, d: int) -> int {
    ray.x + fmul(ray.eye_x as int, d)
}

/// The y coordinate of the point at distance `d` along the ray.
pub open spec fn point_y(ray: Ray, d: int) -> int {
    ray.y + fmul(ray.eye_y as int, d)
}

/// Whether the `k`-th probe of the ray, at distance `k * step`, lies in a
/// wall or outside the grid.
pub open spec fn blocked(grid: &Grid, ray: Ray, step: int, k: int) -> bool {
    grid.is_blocking_spec(point_x(ray, k * step), point_y(ray, k * step))
}

/// Whether the `k`-th probe of the ray lies outside the grid.
pub open spec fn outside(grid: &Grid, ray: Ray, step: int, k: int) -> bool {
    !grid.in_bounds(floor_units(point_x(ray, k * step)), floor_units(point_y(ray, k * step)))
}

/// The number of probes after which the far plane is reached: `depth / step`,
/// rounded up.
pub open spec fn max_steps(depth: int, step: int) -> int {
    (depth + step - 1) / step
}

/// The first blocked probe among the probes `from ..= limit`, or `limit + 1`
/// if none of them is blocked.
pub open spec fn first_blocked(grid: &Grid, ray: Ray, step: int, from: int, limit: int) -> int
    decreases limit - from + 1,
{
    if from > limit {
        from
    } else if blocked(grid, ray, step, from) {
        from
    } else {
        first_blocked(grid, ray, step, from + 1, limit)
    }
}

/// The distance and the hit flag of a ray.
///
/// Let `k` be the first blocked probe. If it comes within `max_steps` probes,
/// the ray hits: at distance `k * step` if the probe lies in a wall cell, at
/// the far plane if it lies outside the grid. Otherwise the ray misses, and
/// its distance is that of the last probe, `max_steps * step`.
pub open spec fn cast_spec(grid: &Grid, ray: Ray, depth: int, step: int) -> (int, bool) {
    let limit = max_steps(depth, step);
    let k = first_blocked(grid, ray, step, 1, limit);
    if k > limit {
        (limit * step, false)
    } else if outside(grid, ray, step, k) {
        (depth, true)
    } else {
        (k * step, true)
    }
}

/// The last probe is the first one at or beyond the far plane.
pub proof fn lemma_max_steps(depth: int, step: int)
    requires
        0 < depth,
        0 < step,
    ensures
        1 <= max_steps(depth, step),
        (max_steps(depth, step) - 1) * step < depth <= max_steps(depth, step) * step,
        depth % step == 0 ==> max_steps(depth, step) * step == depth,
{
    let m = max_steps(depth, step);
    let n = depth + step - 1;
    assert(n == step * (n / step) + n % step && 0 <= n % step < step) by (nonlinear_arith)
        requires
            0 < step,
    ;
    assert(m * step == step * m) by (nonlinear_arith);
    assert((m - 1) * step == step * m - step) by (nonlinear_arith);
    assert(1 <= m) by (nonlinear_arith)
        requires
            step * m + step > n,
            n >= step,
            0 < step,
    ;
    if depth % step == 0 {
        let q = depth / step;
        assert(depth == step * q && 0 <= depth % step) by (nonlinear_arith)
            requires
                0 < step,
                depth % step == 0,
                q == depth / step,
        ;
        assert(m == q) by (nonlinear_arith)
            requires
                depth == step * q,
                step * m <= depth + step - 1,
                depth <= step * m,
                0 < step,
        ;
    }
}

/// The far plane moves the last probe outwards, never inwards.
pub proof fn lemma_max_steps_monotone(near: int, far: int, step: int)
    requires
        0 < near <= far,
        0 < step,
    ensures
        max_steps(near, step) <= max_steps(far, step),
{
    let a = near + step - 1;
    let b = far + step - 1;
    assert(a / step <= b / step) by (nonlinear_arith)
        requires
            a <= b,
            0 < step,
    ;
}

/// What the first blocked probe is: it lies in `from ..= limit + 1`, no probe
/// before it is blocked, and it is blocked itself unless it is `limit + 1`.
pub proof fn lemma_first_blocked(grid: &Grid, ray: Ray, step: int, from: int, limit: int)
    requires
        from <= limit + 1,
    ensures
        from <= first_blocked(grid, ray, step, from, limit) <= limit + 1,
        forall|j: int|
            from <= j < first_blocked(grid, ray, step, from, limit) ==> !blocked(grid, ray, step, j),
        first_blocked(grid, ray, step, from, limit) <= limit ==> blocked(
            grid,
            ray,
            step,
            first_blocked(grid, ray, step, from, limit),
        ),
    decreases limit - from + 1,
{
    if from <= limit && !blocked(grid, ray, step, from) {
        lemma_first_blocked(grid, ray, step, from + 1, limit);
    }
}

/// A longer search finds the same first blocked probe, or one beyond the
/// shorter search.
pub proof fn lemma_first_blocked_extend(
    grid: &Grid,
    ray: Ray,
    step: int,
    from: int,
    near: int,
    far: int,
)
    requires
        from <= near + 1,
        near <= far,
    ensures
        first_blocked(grid, ray, step, from, near) <= near ==> first_blocked(grid, ray, step, from, far)
            == first_blocked(grid, ray, step, from, near),
        first_blocked(grid, ray, step, from, near) > near ==> first_blocked(grid, ray, step, from, far)
            > near,
    decreases near - from + 1,
{
    if from <= near && !blocked(grid, ray, step, from) {
        lemma_first_blocked_extend(grid, ray, step, from + 1, near, far);
    } else if from > near {
        lemma_first_blocked(grid, ray, step, from, far);
    }
}

/// A ray's distance is positive and stays within one step of the far plane.
/// A ray that misses has travelled to the last probe. Where the far plane
/// lies a whole number of steps away, no distance exceeds it, and a ray that
/// misses ends exactly on it.
pub proof fn lemma_cast_bounds(grid: &Grid, ray: Ray, depth: int, step: int)
    requires
        0 < depth,
        0 < step,
    ensures
        0 < cast_spec(grid, ray, depth, step).0 < depth + step,
        !cast_spec(grid, ray, depth, step).1 ==> depth <= cast_spec(grid, ray, depth, step).0
            == max_steps(depth, step) * step,
        depth % step == 0 ==> cast_spec(grid, ray, depth, step).0 <= depth,
        depth % step == 0 && !cast_spec(grid, ray, depth, step).1 ==> cast_spec(
            grid,
            ray,
            depth,
            step,
        ).0 == depth,
{
    let limit = max_steps(depth, step);
    lemma_max_steps(depth, step);
    lemma_first_blocked(grid, ray, step, 1, limit);
    let k = first_blocked(grid, ray, step, 1, limit);
    assert(limit * step < depth + step) by (nonlinear_arith)
        requires
            (limit - 1) * step < depth,
    ;
    if k <= limit {
        assert(0 < k * step <= limit * step) by (nonlinear_arith)
            requires
                1 <= k <= limit,
                0 < step,
        ;
    }
}

/// A ray's distance never shrinks when the far plane moves outwards, the
/// grid, the ray and the step staying the same.
pub proof fn lemma_distance_monotone_in_depth(
    grid: &Grid,
    ray: Ray,
    near: int,
    far: int,
    step: int,
)
    requires
        0 < near <= far,
        0 < step,
    ensures
        cast_spec(grid, ray, near, step).0 <= cast_spec(grid, ray, far, step).0,
{
    let m1 = max_steps(near, step);
    let m2 = max_steps(far, step);
    lemma_max_steps(near, step);
    lemma_max_steps(far, step);
    lemma_max_steps_monotone(near, far, step);
    let k1 = first_blocked(grid, ray, step, 1, m1);
    let k2 = first_blocked(grid, ray, step, 1, m2);
    lemma_first_blocked(grid, ray, step, 1, m1);
    lemma_first_blocked(grid, ray, step, 1, m2);
    lemma_first_blocked_extend(grid, ray, step, 1, m1, m2);
    if k1 <= m1 {
        assert(k2 == k1);
    } else {
        assert(k2 > m1);
        if k2 > m2 {
            assert(m1 * step <= m2 * step) by (nonlinear_arith)
                requires
                    m1 <= m2,
                    0 < step,
            ;
        } else {
            assert(m1 * step < k2 * step <= (m2 - 1) * step + step) by (nonlinear_arith)
                requires
                    m1 < k2 <= m2,
                    0 < step,
            ;
            assert(m1 * step <= (m2 - 1) * step) by (nonlinear_arith)
                requires
                    m1 <= m2 - 1,
                    0 < step,
            ;
        }
    }
}

/// The search for the first blocked probe looks at the grid's size and
/// cells only.
proof fn lemma_first_blocked_same_cells(
    a: &Grid,
    b: &Grid,
    ray: Ray,
    step: int,
    from: int,
    limit: int,
)
    requires
        a.spec_width() == b.spec_width(),
        a.spec_height() == b.spec_height(),
        a.spec_cells() == b.spec_cells(),
    ensures
        first_blocked(a, ray, step, from, limit) == first_blocked(b, ray, step, from, limit),
    decreases limit - from + 1,
{
    if from <= limit && !blocked(a, ray, step, from) {
        lemma_first_blocked_same_cells(a, b, ray, step, from + 1, limit);
    }
}

/// A ray's distance and hit flag are a function of the grid's size and
/// cells, the ray, the far plane and the step, and of nothing else: on two
/// grids of the same size with the same cells, the same ray gives the same
/// result.
pub proof fn lemma_cast_is_pure(a: &Grid, b: &Grid, ray: Ray, depth: int, step: int)
    requires
        a.spec_width() == b.spec_width(),
        a.spec_height() == b.spec_height(),
        a.spec_cells() == b.spec_cells(),
    ensures
        cast_spec(a, ray, depth, step) == cast_spec(b, ray, depth, step),
{
    lemma_first_blocked_same_cells(a, b, ray, step, 1, max_steps(depth, step));
}

/// Casts one ray over the grid: probes it every `step` until a probe is
/// blocked or the far plane at `depth` is reached, and returns the distance
/// travelled and whether the ray was stopped.
pub fn cast(grid: &Grid, ray: Ray, depth: i64, step: i64) -> (result: (i64, bool))
    requires
        grid.wf(),
        0 < depth,
        0 < step,
        depth - 1 + step <= i64::MAX,
    ensures
        (result.0 as int, result.1) == cast_spec(grid, ray, depth as int, step as int),
{
    let ghost limit = max_steps(depth as int, step as int);
    let ghost mut k: int = 0;
    let mut distance: i64 = 0;
    let mut hit: bool = false;
    proof {
        lemma_max_steps(depth as int, step as int);
        assert(0 * step == 0) by (nonlinear_arith);
    }
    while !hit && distance < depth
        invariant
            grid.wf(),
            0 < depth,
            0 < step,
            depth - 1 + step <= i64::MAX,
            limit == max_steps(depth as int, step as int),
            (limit - 1) * step < depth <= limit * step,
            0 <= k <= limit,
            !hit ==> distance == k * step,
            !hit ==> first_blocked(grid, ray, step as int, 1, limit) == first_blocked(
                grid,
                ray,
                step as int,
                k + 1,
                limit,
            ),
            hit ==> (distance as int, true) == cast_spec(grid, ray, depth as int, step as int),
        decreases
                (if hit {
                    0
                } else {
                    limit - k + 1
                }),
    {
        proof {
            assert(k < limit) by (nonlinear_arith)
                requires
                    k * step < depth,
                    depth <= limit * step,
                    0 < step,
            ;
            assert((k + 1) * step == k * step + step) by (nonlinear_arith);
            k = k + 1;
        }
        distance = distance + step;
        let px: i128 = ray.x as i128 + multiply(ray.eye_x, distance);
        let py: i128 = ray.y as i128 + multiply(ray.eye_y, distance);
        let cx: i128 = floor_to_units(px);
        let cy: i128 = floor_to_units(py);
        if !grid.contains(cx, cy) {
            hit = true;
            distance = depth;
        } else if grid.at(cx, cy) == crate::grid::CellKind::Wall {
            hit = true;
        }
    }
    proof {
        if !hit {
            assert(k >= limit) by (nonlinear_arith)
                requires
                    k * step >= depth,
                    (limit - 1) * step < depth,
                    0 < step,
            ;
        }
    }
    (distance, hit)
}

} // verus!
