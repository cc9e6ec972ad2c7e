//! Whole numbers of any size, for the powers that do not fit a machine
//! word: their decimal digits, nine to a limb, the lowest limb first.

use vstd::prelude::*;
use crate::powers::{power, power_adds, power_monotonic};

verus! {

/// The digits of a large number are kept nine to a limb, the lowest limb
/// first; this is one more than the largest limb.
pub const LIMB: u64 = 1_000_000_000;

/// The number that the limbs `limbs` stand for.
pub open spec fn limbs_value(limbs: Seq<u64>) -> int
    decreases limbs.len(),
{
    if limbs.len() == 0 {
        0
    } else {
        limbs_value(limbs.drop_last()) + limbs.last() * power(LIMB as int, (limbs.len() - 1) as nat)
    }
}

/// Every limb holds nine digits at most.
pub open spec fn limbs_wf(limbs: Seq<u64>) -> bool {
    forall|i: int| 0 <= i < limbs.len() ==> #[trigger] limbs[i] < LIMB
}

/// The limbs stand for a positive number in the one way in which limbs of
/// nine digits can: there is a limb, and the highest one is not zero.
pub open spec fn is_number(limbs: Seq<u64>) -> bool {
    limbs_wf(limbs) && limbs.len() >= 1 && limbs.last() > 0
}

/// A limb is nine powers of ten: `LIMB^h = 10^(9 h)`.
pub proof fn limb_power_is_power_of_ten(h: nat)
    ensures
        power(LIMB as int, h) == power(10, 9 * h),
    decreases h,
{
    if h > 0 {
        limb_power_is_power_of_ten((h - 1) as nat);
        power_adds(10, 9, (9 * (h - 1)) as nat);
        assert(power(10, 9) == LIMB) by {
            reveal_with_fuel(power, 10);
        }
    }
}

/// Limbs of nine digits stand for a number below the power of the limb
/// that their count gives, and not below zero.
pub proof fn limbs_value_bounds(limbs: Seq<u64>)
    requires
        limbs_wf(limbs),
    ensures
        0 <= limbs_value(limbs) < power(LIMB as int, limbs.len()),
    decreases limbs.len(),
{
    if limbs.len() > 0 {
        limbs_value_bounds(limbs.drop_last());
        let p = power(LIMB as int, (limbs.len() - 1) as nat);
        let l = limbs.last() as int;
        power_monotonic(1, LIMB as int, (limbs.len() - 1) as nat);
        assert(0 <= l * p && l * p + p <= LIMB * p) by (nonlinear_arith)
            requires
                0 <= l < LIMB,
                p >= 0,
        ;
    }
}

/// Multiplies the number that `limbs` stand for by `m`.
pub fn times(limbs: &mut Vec<u64>, m: u128)
    requires
        is_number(old(limbs)@),
        1 <= m < 0x2_0000_0000_0000_0000,
    ensures
        is_number(final(limbs)@),
        limbs_value(final(limbs)@) == limbs_value(old(limbs)@) * m,
{
    let ghost before = limbs@;
    let n = limbs.len();
    let mut carry: u128 = 0;
    let mut i: usize = 0;
    assert(limbs@.take(0) =~= Seq::<u64>::empty());
    while i < n
        invariant
            i <= n,
            limbs.len() == n,
            n == before.len(),
            n >= 1,
            before.last() > 0,
            limbs_wf(before),
            1 <= m < 0x2_0000_0000_0000_0000,
            carry < m,
            forall|j: int| i <= j < n ==> #[trigger] limbs[j] == before[j],
            forall|j: int| 0 <= j < i ==> #[trigger] limbs[j] < LIMB,
            limbs_value(limbs@.take(i as int)) + carry * power(LIMB as int, i as nat) == limbs_value(
                before.take(i as int),
            ) * m,
            i > 0 ==> carry > 0 || limbs[i - 1] > 0 || before[i - 1] == 0,
        decreases n - i,
    {
        let ghost done = limbs@.take(i as int);
        let ghost carried = carry as int;
        let limb = limbs[i];
        assert(0 <= (limb as u128) * m <= (LIMB - 1) * m && (limb > 0 ==> (limb as u128) * m >= 1))
            by (nonlinear_arith)
            requires
                0 <= limb < LIMB,
                m >= 1,
        ;
        let total: u128 = (limb as u128) * m + carry;
        let low: u64 = (total % 1_000_000_000) as u64;
        carry = total / 1_000_000_000;
        limbs.set(i, low);
        proof {
            let p = power(LIMB as int, i as nat);
            assert(limbs@.take(i + 1) =~= done.push(low));
            assert(done.push(low).drop_last() =~= done);
            assert(before.take(i + 1).drop_last() =~= before.take(i as int));
            assert(before.take(i + 1).last() == limb);
            assert(power(LIMB as int, (i + 1) as nat) == LIMB * p);
            assert(low * p + carry * (LIMB * p) == (limb * m + carried) * p) by (nonlinear_arith)
                requires
                    low + carry * LIMB == limb * m + carried,
            ;
            assert((limbs_value(before.take(i as int)) + limb * p) * m == limbs_value(before.take(i as int)) * m
                + (limb * m) * p) by (nonlinear_arith);
            assert((limb * m + carried) * p == (limb * m) * p + carried * p) by (nonlinear_arith);
        }
        i += 1;
    }
    assert(limbs@.take(n as int) =~= limbs@);
    assert(before.take(n as int) =~= before);
    while carry > 0
        invariant
            limbs.len() >= n,
            n >= 1,
            limbs_wf(limbs@),
            carry > 0 || limbs@.last() > 0,
            limbs_value(limbs@) + carry * power(LIMB as int, limbs.len() as nat) == limbs_value(before) * m,
        decreases carry,
    {
        let ghost done = limbs@;
        let ghost carried = carry as int;
        let low: u64 = (carry % 1_000_000_000) as u64;
        carry = carry / 1_000_000_000;
        limbs.push(low);
        proof {
            let p = power(LIMB as int, done.len());
            assert(limbs@.drop_last() =~= done);
            assert(power(LIMB as int, (done.len() + 1) as nat) == LIMB * p);
            assert(low * p + carry * (LIMB * p) == carried * p) by (nonlinear_arith)
                requires
                    low + carry * LIMB == carried,
            ;
        }
    }
    assert(0 * power(LIMB as int, limbs.len() as nat) == 0);
}

/// A positive number is at least the power of the limb that the count of
/// its limbs, less one, gives.
pub proof fn number_is_as_long_as_its_limbs(limbs: Seq<u64>)
    requires
        is_number(limbs),
    ensures
        power(LIMB as int, (limbs.len() - 1) as nat) <= limbs_value(limbs) < power(LIMB as int, limbs.len()),
{
    limbs_value_bounds(limbs);
    limbs_value_bounds(limbs.drop_last());
    let p = power(LIMB as int, (limbs.len() - 1) as nat);
    let l = limbs.last() as int;
    power_monotonic(1, LIMB as int, (limbs.len() - 1) as nat);
    assert(l * p >= p) by (nonlinear_arith)
        requires
            l >= 1,
            p >= 0,
    ;
}

/// The limbs of the positive number `n`.
pub fn limbs_of(n: u128) -> (limbs: Vec<u64>)
    requires
        n >= 1,
    ensures
        is_number(limbs@),
        limbs_value(limbs@) == n,
{
    let mut limbs: Vec<u64> = Vec::new();
    let mut rest: u128 = n;
    assert(power(LIMB as int, 0) == 1);
    while rest > 0
        invariant
            limbs_wf(limbs@),
            rest > 0 || (limbs.len() >= 1 && limbs@.last() > 0),
            limbs_value(limbs@) + rest * power(LIMB as int, limbs.len() as nat) == n,
        decreases rest,
    {
        let ghost done = limbs@;
        let ghost before = rest as int;
        let low: u64 = (rest % 1_000_000_000) as u64;
        rest = rest / 1_000_000_000;
        limbs.push(low);
        proof {
            let p = power(LIMB as int, done.len());
            assert(limbs@.drop_last() =~= done);
            assert(power(LIMB as int, (done.len() + 1) as nat) == LIMB * p);
            assert(low * p + rest * (LIMB * p) == before * p) by (nonlinear_arith)
                requires
                    low + rest * LIMB == before,
            ;
        }
    }
    assert(0 * power(LIMB as int, limbs.len() as nat) == 0);
    limbs
}

/// The limbs of `x` to the power `e`.
pub fn raised(x: u128, e: u32) -> (limbs: Vec<u64>)
    requires
        1 <= x < 0x2_0000_0000_0000_0000,
    ensures
        is_number(limbs@),
        limbs_value(limbs@) == power(x as int, e as nat),
{
    let mut limbs: Vec<u64> = Vec::new();
    limbs.push(1);
    let mut i: u32 = 0;
    proof {
        assert(limbs@.drop_last() =~= Seq::<u64>::empty());
        assert(limbs_value(limbs@.drop_last()) == 0);
        assert(power(LIMB as int, 0) == 1);
        assert(limbs_value(limbs@) == 1);
    }
    while i < e
        invariant
            i <= e,
            1 <= x < 0x2_0000_0000_0000_0000,
            is_number(limbs@),
            limbs_value(limbs@) == power(x as int, i as nat),
        decreases e - i,
    {
        times(&mut limbs, x);
        proof {
            assert(power(x as int, (i + 1) as nat) == x * power(x as int, i as nat));
            assert(power(x as int, i as nat) * x == x * power(x as int, i as nat)) by (nonlinear_arith);
        }
        i += 1;
    }
    limbs
}

/// Whether the number of `a` is at most the number of `b`.
pub fn at_most(a: &Vec<u64>, b: &Vec<u64>) -> (r: bool)
    requires
        is_number(a@),
        is_number(b@),
    ensures
        r == (limbs_value(a@) <= limbs_value(b@)),
{
    proof {
        number_is_as_long_as_its_limbs(a@);
        number_is_as_long_as_its_limbs(b@);
    }
    if a.len() < b.len() {
        proof {
            power_monotonic_in_exponent(a@.len(), (b@.len() - 1) as nat);
        }
        return true;
    }
    if a.len() > b.len() {
        proof {
            power_monotonic_in_exponent(b@.len(), (a@.len() - 1) as nat);
        }
        return false;
    }
    let mut i: usize = a.len();
    assert(a@.take(i as int) =~= a@);
    assert(b@.take(i as int) =~= b@);
    while i > 0
        invariant
            i <= a.len(),
            a.len() == b.len(),
            limbs_wf(a@),
            limbs_wf(b@),
            limbs_value(a@) - limbs_value(b@) == limbs_value(a@.take(i as int)) - limbs_value(b@.take(i as int)),
        decreases i,
    {
        i -= 1;
        proof {
            let p = power(LIMB as int, i as nat);
            let x = a[i as int] as int;
            let y = b[i as int] as int;
            assert(a@.take(i + 1).drop_last() =~= a@.take(i as int));
            assert(b@.take(i + 1).drop_last() =~= b@.take(i as int));
            limbs_value_bounds(a@.take(i as int));
            limbs_value_bounds(b@.take(i as int));
            assert(x < y ==> x * p + p <= y * p) by (nonlinear_arith)
                requires
                    p >= 0,
            ;
            assert(y < x ==> y * p + p <= x * p) by (nonlinear_arith)
                requires
                    p >= 0,
            ;
        }
        if a[i] != b[i] {
            return a[i] < b[i];
        }
    }
    assert(a@.take(0) =~= b@.take(0));
    true
}

/// Powers of the limb do not fall as the exponent grows.
pub proof fn power_monotonic_in_exponent(e: nat, f: nat)
    requires
        e <= f,
    ensures
        power(LIMB as int, e) <= power(LIMB as int, f),
    decreases f,
{
    if e < f {
        power_monotonic_in_exponent(e, (f - 1) as nat);
        power_monotonic(1, LIMB as int, (f - 1) as nat);
        let p = power(LIMB as int, (f - 1) as nat);
        assert(LIMB * p >= p) by (nonlinear_arith)
            requires
                p >= 0,
        ;
    }
}

} // verus!
