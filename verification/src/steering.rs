//! Moving one point toward another by a given distance.

use vstd::prelude::*;
use crate::limbs::{at_most, is_number, limbs_of, limbs_value, times};
use crate::vectors::Vec2;

verus! {

/// Largest magnitude of a coordinate, and largest step, that
/// [`move_towards`] can take without leaving the range of its arithmetic.
pub const STEER_MAX: i64 = 0x2000_0000_0000_0000;

/// `r` is the integer square root of `n`: the largest number whose square
/// does not exceed `n`.
pub open spec fn is_sqrt(n: int, r: int) -> bool {
    r >= 0 && r * r <= n < (r + 1) * (r + 1)
}

proof fn square_monotonic(a: int, b: int)
    requires
        0 <= a <= b,
    ensures
        a * a <= b * b,
{
    assert(a * a <= b * b) by (nonlinear_arith)
        requires
            0 <= a <= b,
    ;
}

/// A number has one integer square root.
pub proof fn sqrt_unique(n: int, r: int, s: int)
    requires
        is_sqrt(n, r),
        is_sqrt(n, s),
    ensures
        r == s,
{
    if r < s {
        square_monotonic(r + 1, s);
    } else if s < r {
        square_monotonic(s + 1, r);
    }
}

/// The integer square root of `n`.
pub fn isqrt(n: u128) -> (r: u64)
    ensures
        is_sqrt(n as int, r as int),
{
    let mut lo: u128 = 0;
    let mut hi: u128 = 0x1_0000_0000_0000_0000;
    assert(hi * hi > n) by (nonlinear_arith)
        requires
            hi == 0x1_0000_0000_0000_0000,
            n <= u128::MAX,
    ;
    while hi - lo > 1
        invariant
            lo < hi <= 0x1_0000_0000_0000_0000,
            lo * lo <= n < hi * hi,
        decreases hi - lo,
    {
        let mid: u128 = lo + (hi - lo) / 2;
        assert(mid * mid <= u128::MAX) by (nonlinear_arith)
            requires
                0 <= mid < 0x1_0000_0000_0000_0000,
        ;
        if mid * mid <= n {
            lo = mid;
        } else {
            hi = mid;
        }
    }
    lo as u64
}

/// The square root of `n`, rounded down.
pub open spec fn floor_sqrt(n: int) -> int {
    choose|r: int| #[trigger] is_sqrt(n, r)
}

/// The point `b` lies no further than `reach` from the point `a`.
pub open spec fn within_reach(a: (int, int), b: (int, int), reach: int) -> bool {
    (b.0 - a.0) * (b.0 - a.0) + (b.1 - a.1) * (b.1 - a.1) <= reach * reach
}

/// The part of a step of length `step` that falls on one axis, where `d` is
/// the signed distance to the target on that axis and `n` the square of
/// the length of the whole way: `|d| * step / sqrt(n)`, rounded down, with
/// the sign of `d`. Its square is the whole part of `d^2 * step^2 / n`.
pub open spec fn axis_step(d: int, step: int, n: int) -> int {
    if n <= 0 {
        0
    } else if d >= 0 {
        floor_sqrt(d * d * step * step / n)
    } else {
        -floor_sqrt(d * d * step * step / n)
    }
}

/// The square of the distance between two points.
pub open spec fn square_distance(a: Vec2, b: Vec2) -> int {
    (b.x - a.x) * (b.x - a.x) + (b.y - a.y) * (b.y - a.y)
}

/// Where [`move_towards`] arrives: on the way from `current` to `target`,
/// `step` from `current`, each coordinate rounded toward `current` to a
/// whole number. A point that already is the target stays.
pub open spec fn move_towards_spec(current: Vec2, target: Vec2, step: int) -> (int, int) {
    let n = square_distance(current, target);
    (
        current.x + axis_step(target.x - current.x, step, n),
        current.y + axis_step(target.y - current.y, step, n),
    )
}

/// Every non-negative number has an integer square root.
pub proof fn sqrt_exists(n: int)
    requires
        n >= 0,
    ensures
        is_sqrt(n, floor_sqrt(n)),
    decreases n,
{
    if n == 0 {
        assert(is_sqrt(0, 0));
    } else {
        sqrt_exists(n - 1);
        let r = floor_sqrt(n - 1);
        if (r + 1) * (r + 1) <= n {
            assert((r + 2) * (r + 2) > (r + 1) * (r + 1)) by (nonlinear_arith)
                requires
                    r >= 0,
            ;
            assert(is_sqrt(n, r + 1));
        } else {
            assert(is_sqrt(n, r));
        }
    }
}

/// `q` is the root, rounded down, of the whole part of `x / n` exactly if
/// `q^2 n <= x < (q + 1)^2 n`.
pub proof fn root_of_quotient(x: int, n: int, q: int)
    requires
        n > 0,
        x >= 0,
        q >= 0,
    ensures
        is_sqrt(x / n, q) <==> q * q * n <= x < (q + 1) * (q + 1) * n,
{
    let w = x / n;
    let a = q * q;
    let b = (q + 1) * (q + 1);
    assert(w * n <= x < w * n + n) by (nonlinear_arith)
        requires
            w == x / n,
            n > 0,
    ;
    assert(a <= w ==> a * n <= w * n) by (nonlinear_arith)
        requires
            n > 0,
    ;
    assert(a > w ==> a * n >= w * n + n) by (nonlinear_arith)
        requires
            n > 0,
    ;
    assert(w < b ==> w * n + n <= b * n) by (nonlinear_arith)
        requires
            n > 0,
    ;
    assert(w >= b ==> w * n >= b * n) by (nonlinear_arith)
        requires
            n > 0,
    ;
}

/// A step is never longer than asked for: the point at which
/// [`move_towards`] arrives lies no further than `step` from where it
/// set out, and on each axis on the side of the target.
pub proof fn step_is_capped(current: Vec2, target: Vec2, step: int)
    requires
        step >= 0,
    ensures
        within_reach(
            (current.x as int, current.y as int),
            move_towards_spec(current, target, step),
            step,
        ),
        target.x >= current.x ==> move_towards_spec(current, target, step).0 >= current.x,
        target.x <= current.x ==> move_towards_spec(current, target, step).0 <= current.x,
        target.y >= current.y ==> move_towards_spec(current, target, step).1 >= current.y,
        target.y <= current.y ==> move_towards_spec(current, target, step).1 <= current.y,
        current == target ==> move_towards_spec(current, target, step) == (current.x as int, current.y as int),
{
    let dx = target.x - current.x;
    let dy = target.y - current.y;
    let n = square_distance(current, target);
    assert(dx * dx >= 0 && dy * dy >= 0) by (nonlinear_arith);
    if n > 0 {
        let xx = dx * dx * step * step;
        let yy = dy * dy * step * step;
        assert(xx >= 0 && yy >= 0 && xx + yy == n * (step * step)) by (nonlinear_arith)
            requires
                xx == dx * dx * step * step,
                yy == dy * dy * step * step,
                n == dx * dx + dy * dy,
        ;
        assert(xx / n >= 0 && yy / n >= 0) by (nonlinear_arith)
            requires
                xx >= 0,
                yy >= 0,
                n > 0,
        ;
        sqrt_exists(xx / n);
        sqrt_exists(yy / n);
        let qx = floor_sqrt(xx / n);
        let qy = floor_sqrt(yy / n);
        root_of_quotient(xx, n, qx);
        root_of_quotient(yy, n, qy);
        assert(qx * qx + qy * qy <= step * step) by (nonlinear_arith)
            requires
                qx * qx * n <= xx,
                qy * qy * n <= yy,
                xx + yy == n * (step * step),
                n > 0,
        ;
        assert((-qx) * (-qx) == qx * qx && (-qy) * (-qy) == qy * qy) by (nonlinear_arith);
        if dx == 0 {
            assert(xx == 0) by (nonlinear_arith)
                requires
                    dx == 0,
                    xx == dx * dx * step * step,
            ;
            assert(qx == 0) by (nonlinear_arith)
                requires
                    qx >= 0,
                    qx * qx * n <= 0,
                    n > 0,
            ;
        }
        if dy == 0 {
            assert(yy == 0) by (nonlinear_arith)
                requires
                    dy == 0,
                    yy == dy * dy * step * step,
            ;
            assert(qy == 0) by (nonlinear_arith)
                requires
                    qy >= 0,
                    qy * qy * n <= 0,
                    n > 0,
            ;
        }
    } else {
        assert(0 * 0 == 0);
        if current == target {
        }
    }
    if current == target {
        assert(dx * dx == 0 && dy * dy == 0) by (nonlinear_arith)
            requires
                dx == 0,
                dy == 0,
        ;
    }
}

/// `d * step / sqrt(n)`, rounded down: by a square root in a machine
/// word where the square of `d * step` fits one, else by bisection on
/// numbers of any size.
fn scaled(d: u64, step: u64, n: u128) -> (q: u64)
    requires
        d <= 0x4000_0000_0000_0000,
        step <= 0x2000_0000_0000_0000,
        n >= 1,
        d * d <= n,
    ensures
        q == floor_sqrt(d * d * step * step / (n as int)),
        q <= step,
{
    let ghost x = d * d * step * step;
    proof {
        assert(0 <= x <= n * (step * step) && n * (step * step) < (step + 1) * (step + 1) * n)
            by (nonlinear_arith)
            requires
                x == d * d * step * step,
                0 <= d * d <= n,
                n >= 1,
                step >= 0,
        ;
    }
    if d == 0 || step == 0 {
        proof {
            assert(x == 0) by (nonlinear_arith)
                requires
                    x == d * d * step * step,
                    d == 0 || step == 0,
            ;
            assert(is_sqrt(0, 0));
            sqrt_exists(x / (n as int));
            sqrt_unique(x / (n as int), 0, floor_sqrt(x / (n as int)));
        }
        return 0;
    }
    assert(d * step <= 0x4000_0000_0000_0000 * 0x2000_0000_0000_0000) by (nonlinear_arith)
        requires
            0 <= d <= 0x4000_0000_0000_0000,
            0 <= step <= 0x2000_0000_0000_0000,
    ;
    let product: u128 = (d as u128) * (step as u128);
    if product < 0x1_0000_0000_0000_0000 {
        // the square fits a machine word
        assert(product * product < 0x1_0000_0000_0000_0000 * 0x1_0000_0000_0000_0000 && product * product
            == x) by (nonlinear_arith)
            requires
                0 <= product < 0x1_0000_0000_0000_0000,
                product == d * step,
                x == d * d * step * step,
        ;
        let q = isqrt(product * product / n);
        proof {
            sqrt_exists(x / (n as int));
            sqrt_unique(x / (n as int), q as int, floor_sqrt(x / (n as int)));
            root_of_quotient(x, n as int, q as int);
            assert(q <= step) by (nonlinear_arith)
                requires
                    q * q * n <= x,
                    x < (step + 1) * (step + 1) * n,
                    n >= 1,
                    q >= 0,
                    step >= 0,
            ;
        }
        return q;
    }
    let mut whole = limbs_of(d as u128);
    times(&mut whole, d as u128);
    times(&mut whole, step as u128);
    times(&mut whole, step as u128);
    assert(limbs_value(whole@) == x) by (nonlinear_arith)
        requires
            limbs_value(whole@) == ((d * d) * step) * step,
            x == d * d * step * step,
    ;
    let mut lo: u64 = 0;
    let mut hi: u64 = step + 1;
    assert(0 * 0 * n == 0);
    while hi - lo > 1
        invariant
            lo < hi <= step + 1,
            step <= 0x2000_0000_0000_0000,
            n >= 1,
            is_number(whole@),
            limbs_value(whole@) == x,
            lo * lo * n <= x < hi * hi * n,
        decreases hi - lo,
    {
        let mid: u64 = lo + (hi - lo) / 2;
        let mut part = limbs_of(n);
        times(&mut part, mid as u128);
        times(&mut part, mid as u128);
        assert(limbs_value(part@) == mid * mid * n) by (nonlinear_arith)
            requires
                limbs_value(part@) == (n * mid) * mid,
        ;
        if at_most(&part, &whole) {
            lo = mid;
        } else {
            hi = mid;
        }
    }
    proof {
        assert(x / (n as int) >= 0) by (nonlinear_arith)
            requires
                x >= 0,
                n >= 1,
        ;
        root_of_quotient(x, n as int, lo as int);
        sqrt_exists(x / (n as int));
        sqrt_unique(x / (n as int), lo as int, floor_sqrt(x / (n as int)));
    }
    lo
}

/// Moves `current` by `max_distance` along the straight line toward
/// `target`. Each coordinate of the step is rounded down to a whole
/// number, so the point at which it arrives lies on the side of the
/// target, less than one sub-unit on each axis from the exact point, and
/// never further than `max_distance` from `current`. The step is not
/// shortened where the target is nearer than `max_distance`. A point that
/// already is the target stays where it is.
pub fn move_towards(current: Vec2, target: Vec2, max_distance: i64) -> (moved: Vec2)
    requires
        current.within(STEER_MAX as int),
        target.within(STEER_MAX as int),
        0 <= max_distance <= STEER_MAX,
    ensures
        (moved.x as int, moved.y as int) == move_towards_spec(current, target, max_distance as int),
        within_reach(
            (current.x as int, current.y as int),
            (moved.x as int, moved.y as int),
            max_distance as int,
        ),
        current.x <= target.x ==> current.x <= moved.x <= current.x + max_distance,
        current.x >= target.x ==> current.x - max_distance <= moved.x <= current.x,
        current.y <= target.y ==> current.y <= moved.y <= current.y + max_distance,
        current.y >= target.y ==> current.y - max_distance <= moved.y <= current.y,
        current == target ==> moved == current,
{
    let dx: i128 = target.x as i128 - current.x as i128;
    let dy: i128 = target.y as i128 - current.y as i128;
    let mx: u64 = if dx >= 0 { dx as u64 } else { (-dx) as u64 };
    let my: u64 = if dy >= 0 { dy as u64 } else { (-dy) as u64 };
    assert(mx * mx <= 0x4000_0000_0000_0000 * 0x4000_0000_0000_0000) by (nonlinear_arith)
        requires
            0 <= mx <= 0x4000_0000_0000_0000,
    ;
    assert(my * my <= 0x4000_0000_0000_0000 * 0x4000_0000_0000_0000) by (nonlinear_arith)
        requires
            0 <= my <= 0x4000_0000_0000_0000,
    ;
    let square: u128 = (mx as u128) * (mx as u128) + (my as u128) * (my as u128);
    proof {
        assert(mx * mx == dx * dx && my * my == dy * dy) by (nonlinear_arith)
            requires
                mx == dx || mx == -dx,
                my == dy || my == -dy,
        ;
        assert(mx * mx * max_distance * max_distance == dx * dx * max_distance * max_distance
            && my * my * max_distance * max_distance == dy * dy * max_distance * max_distance)
            by (nonlinear_arith)
            requires
                mx * mx == dx * dx,
                my * my == dy * dy,
        ;
        step_is_capped(current, target, max_distance as int);
    }
    if square == 0 {
        return current;
    }
    let qx: u64 = scaled(mx, max_distance as u64, square);
    let qy: u64 = scaled(my, max_distance as u64, square);
    let sx: i64 = if dx >= 0 { qx as i64 } else { -(qx as i64) };
    let sy: i64 = if dy >= 0 { qy as i64 } else { -(qy as i64) };
    Vec2 { x: current.x + sx, y: current.y + sy }
}

} // verus!
