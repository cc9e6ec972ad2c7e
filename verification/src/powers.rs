//! Powers of whole numbers, and how they grow.

use vstd::prelude::*;

verus! {

/// `b` to the power `e`.
pub open spec fn power(b: int, e: nat) -> int
    decreases e,
{
    if e == 0 {
        1
    } else {
        b * power(b, (e - 1) as nat)
    }
}

/// Powers of non-negative numbers grow with the base.
pub proof fn power_monotonic(a: int, b: int, e: nat)
    requires
        0 <= a <= b,
    ensures
        0 <= power(a, e) <= power(b, e),
    decreases e,
{
    if e > 0 {
        power_monotonic(a, b, (e - 1) as nat);
        let x = power(a, (e - 1) as nat);
        let y = power(b, (e - 1) as nat);
        assert(0 <= a * x <= b * y) by (nonlinear_arith)
            requires
                0 <= a <= b,
                0 <= x <= y,
        ;
    }
}

/// Powers with a positive exponent grow strictly with the base.
pub proof fn power_strictly_monotonic(a: int, b: int, e: nat)
    requires
        0 <= a < b,
        e >= 1,
    ensures
        0 <= power(a, e) < power(b, e),
    decreases e,
{
    power_monotonic(a, b, (e - 1) as nat);
    let x = power(a, (e - 1) as nat);
    let y = power(b, (e - 1) as nat);
    if e == 1 {
        assert(x == 1 && y == 1);
        assert(a * 1 == a && b * 1 == b);
    } else {
        power_strictly_monotonic(a, b, (e - 1) as nat);
        assert(0 <= a * x < b * y) by (nonlinear_arith)
            requires
                0 <= a < b,
                0 <= x < y,
        ;
    }
}

/// Powers of ten grow with the exponent.
pub proof fn power_of_ten_grows(a: nat, b: nat)
    requires
        a < b,
    ensures
        0 < power(10, a) < power(10, b),
    decreases b,
{
    power_monotonic(1, 10, a);
    power_of_one(a);
    if a + 1 < b {
        power_of_ten_grows(a, (b - 1) as nat);
    }
}

/// Every power of one is one.
pub proof fn power_of_one(e: nat)
    ensures
        power(1, e) == 1,
    decreases e,
{
    if e > 0 {
        power_of_one((e - 1) as nat);
    }
}

/// A power with a sum as its exponent: `b^(e + f) = b^e * b^f`.
pub proof fn power_adds(b: int, e: nat, f: nat)
    ensures
        power(b, e + f) == power(b, e) * power(b, f),
    decreases e,
{
    if e == 0 {
        assert(power(b, 0) == 1);
        assert(1 * power(b, f) == power(b, f));
    } else {
        power_adds(b, (e - 1) as nat, f);
        let rest = power(b, (e - 1) as nat);
        let other = power(b, f);
        assert(power(b, e + f) == b * power(b, (e - 1 + f) as nat));
        assert(b * (rest * other) == (b * rest) * other) by (nonlinear_arith);
    }
}

} // verus!
