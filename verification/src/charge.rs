//! The damage that a charged parry adds, from the logarithm of the charge
//! time. The logarithm is taken on whole numbers, by counting the decimal
//! digits of a power.

use vstd::prelude::*;
use crate::limbs::{limb_power_is_power_of_ten, limbs_value_bounds, raised, LIMB};
use crate::powers::{power, power_adds, power_monotonic, power_of_one, power_of_ten_grows};

verus! {

/// The exponent that stands for the factor 33 of the curve: with it the
/// bonus is known to a thousandth of a point.
pub const CURVE_POWER: u32 = 33_000;

/// While a power is followed by its first digits only, so many digits are
/// kept that a step still fits a machine word: this is ten to the power
/// eighteen.
pub const KEPT: u128 = 1_000_000_000_000_000_000;

/// Milliseconds that the curve adds to the charge time.
pub const CURVE_SHIFT: u64 = 700;

/// `k` is the decimal logarithm of `n`, rounded down: `n` has `k + 1`
/// digits.
pub open spec fn is_decimal_log(n: int, k: int) -> bool {
    k >= 0 && power(10, k as nat) <= n < power(10, (k + 1) as nat)
}

/// The decimal logarithm of a positive number, rounded down.
pub open spec fn decimal_log(n: int) -> int {
    choose|k: int| #[trigger] is_decimal_log(n, k)
}

/// The damage, in thousandths of a point, that a parry adds after a
/// charge of `charge_time` milliseconds: `33 * log10(t + 0.7) + 10`
/// points for a charge of `t` seconds, rounded down to a thousandth of a
/// point.
///
/// With `x = charge_time + 700`, `33000 * log10(x / 1000)` rounded down
/// is the decimal logarithm of `x^33000`, rounded down, less 99000; ten
/// points, which are 10000 thousandths, come on top.
pub open spec fn charge_bonus(charge_time: int) -> int {
    decimal_log(power(charge_time + CURVE_SHIFT, CURVE_POWER as nat)) - 99_000 + 10_000
}

/// Only one number is the rounded-down decimal logarithm of `n`.
pub proof fn decimal_log_unique(n: int, k: int, j: int)
    requires
        is_decimal_log(n, k),
        is_decimal_log(n, j),
    ensures
        k == j,
{
    if k < j {
        if k + 1 < j {
            power_of_ten_grows((k + 1) as nat, j as nat);
        }
    } else if j < k {
        if j + 1 < k {
            power_of_ten_grows((j + 1) as nat, k as nat);
        }
    }
}

/// A number below twenty digits, raised to a power, has a decimal
/// logarithm of at most twenty times the exponent.
pub proof fn decimal_log_is_small(x: int, e: nat, k: int)
    requires
        1 <= x < 0x2_0000_0000_0000_0000,
        is_decimal_log(power(x, e), k),
    ensures
        k <= 20 * e,
{
    if k > 20 * e {
        power_monotonic(x, 100_000_000_000_000_000_000, e);
        twenty_digits_powered(e);
        power_of_ten_grows(20 * e, k as nat);
    }
}

/// `(10^20)^e = 10^(20 e)`.
proof fn twenty_digits_powered(e: nat)
    ensures
        power(100_000_000_000_000_000_000, e) == power(10, 20 * e),
    decreases e,
{
    if e > 0 {
        twenty_digits_powered((e - 1) as nat);
        power_adds(10, 20, (20 * (e - 1)) as nat);
        assert(power(10, 20) == 100_000_000_000_000_000_000) by {
            reveal_with_fuel(power, 21);
        }
    }
}

/// The number of decimal digits of a positive number below [`KEPT`].
fn digits_of(v: u128) -> (digits: u32)
    requires
        0 < v < KEPT,
    ensures
        1 <= digits <= 18,
        power(10, (digits - 1) as nat) <= v < power(10, digits as nat),
{
    let mut digits: u32 = 1;
    let mut above: u128 = 10;
    proof {
        reveal_with_fuel(power, 3);
        assert(power(10, 0) == 1 && power(10, 1) == 10);
        assert(power(10, 18) == KEPT) by {
            reveal_with_fuel(power, 19);
        }
    }
    while v >= above
        invariant
            1 <= digits <= 18,
            0 < v < KEPT,
            above == power(10, digits as nat),
            power(10, (digits - 1) as nat) <= v,
            power(10, 18) == KEPT,
        decreases 18 - digits,
    {
        proof {
            if digits == 18 {
                assert(false);
            }
            assert(power(10, (digits + 1) as nat) == 10 * power(10, digits as nat));
        }
        above = above * 10;
        digits = digits + 1;
    }
    digits
}

/// The decimal logarithm of `x^e`, rounded down, from all the digits of
/// the power.
pub fn log_of_power_exact(x: u128, e: u32) -> (k: u64)
    requires
        1 <= x < 0x2_0000_0000_0000_0000,
    ensures
        is_decimal_log(power(x as int, e as nat), k as int),
{
    let limbs = raised(x, e);
    let top = limbs.len() - 1;
    let digits = digits_of(limbs[top] as u128);
    proof {
        let h = top as nat;
        let l = limbs@.last() as int;
        let p = power(LIMB as int, h);
        let low = power(10, (digits - 1) as nat);
        let high = power(10, digits as nat);
        limbs_value_bounds(limbs@.drop_last());
        limb_power_is_power_of_ten(h);
        power_adds(10, (digits - 1) as nat, 9 * h);
        power_adds(10, digits as nat, 9 * h);
        power_monotonic(1, 10, 9 * h);
        power_of_one(9 * h);
        assert(low * p <= l * p && l * p + p <= high * p) by (nonlinear_arith)
            requires
                low <= l < high,
                p >= 1,
        ;
        assert(is_decimal_log(power(x as int, e as nat), 9 * h + digits - 1));
        decimal_log_is_small(x as int, e as nat, 9 * h + digits - 1);
    }
    (9 * (top as u128) + digits as u128 - 1) as u64
}

/// The decimal logarithm of `x^e`, rounded down, from the first digits of
/// the power: the power is followed between two bounds of eighteen
/// digits, and where both bounds have as many digits the logarithm is
/// known. Where they differ nothing is returned.
pub fn log_of_power_quick(x: u128, e: u32) -> (k: Option<u64>)
    requires
        1 <= x < 0x2_0000_0000_0000_0000,
    ensures
        k.is_some() ==> is_decimal_log(power(x as int, e as nat), k.unwrap() as int),
{
    let mut lo: u128 = 1;
    let mut hi: u128 = 1;
    let mut shift: u64 = 0;
    let mut i: u32 = 0;
    proof {
        assert(power(10, 0) == 1);
        assert(power(x as int, 0) == 1);
    }
    while i < e
        invariant
            i <= e,
            1 <= x < 0x2_0000_0000_0000_0000,
            lo <= hi < KEPT,
            lo * power(10, shift as nat) <= power(x as int, i as nat) <= hi * power(10, shift as nat),
        decreases e - i,
    {
        let ghost scale = power(10, shift as nat);
        let ghost was = power(x as int, i as nat);
        let ghost now = power(x as int, (i + 1) as nat);
        assert(lo * x <= hi * x && hi * x < KEPT * 0x2_0000_0000_0000_0000) by (nonlinear_arith)
            requires
                0 <= lo <= hi < KEPT,
                1 <= x < 0x2_0000_0000_0000_0000,
        ;
        proof {
            power_of_ten_grows(0, (shift + 1) as nat);
            if shift > 0 {
                power_of_ten_grows(0, shift as nat);
            }
            assert(now == x * was);
            assert((lo * x) * scale <= x * was && x * was <= (hi * x) * scale) by (nonlinear_arith)
                requires
                    lo * scale <= was <= hi * scale,
                    x >= 1,
            ;
        }
        lo = lo * x;
        hi = hi * x;
        while hi >= KEPT
            invariant
                lo <= hi < 36_893_488_147_419_103_232_000_000_000_000_000_000,
                now == power(x as int, (i + 1) as nat),
                lo * power(10, shift as nat) <= now <= hi * power(10, shift as nat),
            decreases hi,
        {
            if shift == u64::MAX {
                return None;
            }
            let ghost scale = power(10, shift as nat);
            let ghost lo_was = lo as int;
            let ghost hi_was = hi as int;
            lo = lo / 10;
            hi = (hi + 9) / 10;
            shift = shift + 1;
            proof {
                power_of_ten_grows(0, shift as nat);
                assert(power(10, shift as nat) == 10 * scale);
                assert(lo * (10 * scale) <= lo_was * scale && hi_was * scale <= hi * (10 * scale))
                    by (nonlinear_arith)
                    requires
                        lo * 10 <= lo_was,
                        hi_was <= hi * 10,
                        scale >= 0,
                ;
            }
        }
        i = i + 1;
    }
    if lo == 0 {
        return None;
    }
    let low_digits = digits_of(lo);
    let high_digits = digits_of(hi);
    if low_digits != high_digits {
        return None;
    }
    proof {
        let scale = power(10, shift as nat);
        let floor = power(10, (low_digits - 1) as nat);
        let roof = power(10, low_digits as nat);
        power_adds(10, (low_digits - 1) as nat, shift as nat);
        power_adds(10, low_digits as nat, shift as nat);
        power_monotonic(1, 10, shift as nat);
        power_of_one(shift as nat);
        assert(floor * scale <= lo * scale && hi * scale < roof * scale) by (nonlinear_arith)
            requires
                floor <= lo,
                hi < roof,
                scale >= 1,
        ;
        assert(is_decimal_log(power(x as int, e as nat), low_digits - 1 + shift));
        decimal_log_is_small(x as int, e as nat, low_digits - 1 + shift);
    }
    Some(low_digits as u64 - 1 + shift)
}

/// The decimal logarithm of `x^e`, rounded down: from the first digits of
/// the power where they settle it, else from all of them.
pub fn log_of_power(x: u128, e: u32) -> (k: u64)
    requires
        1 <= x < 0x2_0000_0000_0000_0000,
    ensures
        is_decimal_log(power(x as int, e as nat), k as int),
        k <= 20 * e,
{
    let k = match log_of_power_quick(x, e) {
        Some(k) => k,
        None => log_of_power_exact(x, e),
    };
    proof {
        decimal_log_is_small(x as int, e as nat, k as int);
    }
    k
}

/// The damage, in thousandths of a point, that a parry adds after a
/// charge of `charge_time` milliseconds.
pub fn get_charge_bonus(charge_time: u64) -> (bonus: i64)
    ensures
        bonus == charge_bonus(charge_time as int),
        -89_000 <= bonus <= 571_000,
{
    let x: u128 = charge_time as u128 + CURVE_SHIFT as u128;
    let k = log_of_power(x, CURVE_POWER);
    proof {
        decimal_log_unique(
            power(x as int, CURVE_POWER as nat),
            k as int,
            decimal_log(power(x as int, CURVE_POWER as nat)),
        );
    }
    k as i64 - 89_000
}

} // verus!
