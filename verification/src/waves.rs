//! How many enemies a wave brings, and how fast.

use vstd::prelude::*;
use crate::limbs::{at_most, is_number, limbs_value, raised};
use crate::powers::{power, power_monotonic, power_strictly_monotonic};

verus! {

/// The last wave whose size fits the 32 bits in which enemies are
/// counted.
pub const MAX_WAVE: u32 = 224_722;

/// Milliseconds between two spawns of the first wave.
pub const FIRST_INTERVAL: i64 = 10_000;

/// Milliseconds by which the time between two spawns shrinks from one wave
/// to the next.
pub const INTERVAL_STEP: i64 = 1_660;

/// Fewest milliseconds between two spawns.
pub const SHORTEST_INTERVAL: i64 = 300;

/// `k` is `n` to the power 1.8, rounded down: the largest number whose
/// fifth power does not exceed the ninth power of `n`.
pub open spec fn is_floored_power(n: int, k: int) -> bool {
    k >= 0 && power(k, 5) <= power(n, 9) < power(k + 1, 5)
}

/// `k` is `n` to the power 1.1, rounded to the nearest number, a half
/// upward: `k - 1/2` is at most `n` to the power 1.1, which is below
/// `k + 1/2`; stated on the tenth powers of the doubles.
pub open spec fn is_rounded_power(n: int, k: int) -> bool {
    &&& k >= 0
    &&& k >= 1 ==> power(2 * k - 1, 10) <= 1024 * power(n, 11)
    &&& 1024 * power(n, 11) < power(2 * k + 1, 10)
}

/// `n` to the power 1.8, rounded down.
pub open spec fn floored_power(n: int) -> int {
    choose|k: int| #[trigger] is_floored_power(n, k)
}

/// `n` to the power 1.1, rounded to the nearest number.
pub open spec fn rounded_power(n: int) -> int {
    choose|k: int| #[trigger] is_rounded_power(n, k)
}

/// The number of enemies that a wave brings: with `n` one less than the
/// wave's number, five times `n` to the power 1.1, rounded, and four more,
/// up to the eleventh wave; after it `n` to the power 1.8, rounded down,
/// and four more.
pub open spec fn enemies_to_spawn(wave: int) -> int {
    let n = wave - 1;
    if n <= 10 {
        rounded_power(n) * 5 + 4
    } else {
        floored_power(n) + 4
    }
}

/// The milliseconds between two spawns of a wave: ten seconds for the
/// first wave, 1.66 seconds less for each wave after, and never less than
/// 0.3 seconds.
pub open spec fn spawn_interval(wave: int) -> int {
    let falling = FIRST_INTERVAL - INTERVAL_STEP * (wave - 1);
    if falling > SHORTEST_INTERVAL {
        falling
    } else {
        SHORTEST_INTERVAL as int
    }
}

/// Only one number is the rounded-down power 1.8 of `n`.
pub proof fn floored_power_unique(n: int, k: int, j: int)
    requires
        is_floored_power(n, k),
        is_floored_power(n, j),
    ensures
        k == j,
{
    if k < j {
        power_monotonic(k + 1, j, 5);
    } else if j < k {
        power_monotonic(j + 1, k, 5);
    }
}

/// Only one number is the rounded power 1.1 of `n`.
pub proof fn rounded_power_unique(n: int, k: int, j: int)
    requires
        is_rounded_power(n, k),
        is_rounded_power(n, j),
    ensures
        k == j,
{
    if k < j {
        power_monotonic(2 * k + 1, 2 * j - 1, 10);
    } else if j < k {
        power_monotonic(2 * j + 1, 2 * k - 1, 10);
    }
}

/// Every non-negative number lies between the fifth powers of two
/// neighbours.
proof fn fifth_root_exists(m: int)
    requires
        m >= 0,
    ensures
        exists|k: int| k >= 0 && #[trigger] power(k, 5) <= m < power(k + 1, 5),
    decreases m,
{
    reveal_with_fuel(power, 6);
    if m == 0 {
        assert(power(0, 5) <= 0 < power(1, 5));
    } else {
        fifth_root_exists(m - 1);
        let k = choose|k: int| k >= 0 && #[trigger] power(k, 5) <= m - 1 < power(k + 1, 5);
        if power(k + 1, 5) <= m {
            power_strictly_monotonic(k + 1, k + 2, 5);
            assert(power(k + 1, 5) <= m < power(k + 1 + 1, 5));
        } else {
            assert(power(k, 5) <= m < power(k + 1, 5));
        }
    }
}

/// Every non-negative number has a rounded-down power 1.8.
pub proof fn floored_power_exists(n: int)
    requires
        n >= 0,
    ensures
        is_floored_power(n, floored_power(n)),
{
    power_monotonic(0, n, 9);
    fifth_root_exists(power(n, 9));
    let k = choose|k: int| k >= 0 && #[trigger] power(k, 5) <= power(n, 9) < power(k + 1, 5);
    assert(is_floored_power(n, k));
}

/// The rounded-down power 1.8 does not fall as the number grows.
pub proof fn floored_power_monotonic(n: int, m: int)
    requires
        0 <= n <= m,
    ensures
        floored_power(n) <= floored_power(m),
{
    floored_power_exists(n);
    floored_power_exists(m);
    let k = floored_power(n);
    let j = floored_power(m);
    power_monotonic(n, m, 9);
    if j < k {
        power_monotonic(j + 1, k, 5);
    }
}

/// The rounded power 1.1 of the numbers up to ten.
pub open spec fn rounded_power_listed(n: int) -> int {
    if n <= 3 {
        n
    } else if n <= 6 {
        n + 1
    } else if n <= 9 {
        n + 2
    } else {
        13
    }
}

/// Up to ten, the rounded power 1.1 is the listed number.
pub proof fn rounded_power_is_listed(n: int)
    requires
        0 <= n <= 10,
    ensures
        is_rounded_power(n, rounded_power_listed(n)),
        rounded_power(n) == rounded_power_listed(n),
{
    assert(is_rounded_power(n, rounded_power_listed(n))) by {
        if n == 0 {
            power_unrolled(0);
            power_unrolled(1);
        } else if n == 1 {
            power_unrolled(1);
            power_unrolled(1);
            power_unrolled(3);
        } else if n == 2 {
            power_unrolled(2);
            power_unrolled(3);
            power_unrolled(5);
        } else if n == 3 {
            power_unrolled(3);
            power_unrolled(5);
            power_unrolled(7);
        } else if n == 4 {
            power_unrolled(4);
            power_unrolled(9);
            power_unrolled(11);
        } else if n == 5 {
            power_unrolled(5);
            power_unrolled(11);
            power_unrolled(13);
        } else if n == 6 {
            power_unrolled(6);
            power_unrolled(13);
            power_unrolled(15);
        } else if n == 7 {
            power_unrolled(7);
            power_unrolled(17);
            power_unrolled(19);
        } else if n == 8 {
            power_unrolled(8);
            power_unrolled(19);
            power_unrolled(21);
        } else if n == 9 {
            power_unrolled(9);
            power_unrolled(21);
            power_unrolled(23);
        } else {
            power_unrolled(10);
            power_unrolled(25);
            power_unrolled(27);
        }
    }
    rounded_power_unique(n, rounded_power(n), rounded_power_listed(n));
}

/// The powers that the counts of enemies are made of, written out.
proof fn power_unrolled(b: int)
    ensures
        power(b, 5) == b * (b * (b * (b * b))),
        power(b, 9) == b * (b * (b * (b * (b * (b * (b * (b * b))))))),
        power(b, 10) == b * (b * (b * (b * (b * (b * (b * (b * (b * b)))))))),
        power(b, 11) == b * (b * (b * (b * (b * (b * (b * (b * (b * (b * b))))))))),
{
    reveal_with_fuel(power, 12);
    assert(b * 1 == b);
}

/// The first wave brings four enemies and the eleventh sixty-nine; the
/// twelfth, the first one counted by the power 1.8, brings seventy-eight.
pub proof fn enemies_to_spawn_at_the_boundary()
    ensures
        enemies_to_spawn(1) == 4,
        enemies_to_spawn(11) == 69,
        enemies_to_spawn(11) == rounded_power(10) * 5 + 4,
        enemies_to_spawn(12) == 78,
{
    rounded_power_is_listed(0);
    rounded_power_is_listed(10);
    power_unrolled(11);
    power_unrolled(74);
    power_unrolled(75);
    assert(is_floored_power(11, 74));
    floored_power_exists(11);
    floored_power_unique(11, 74, floored_power(11));
}

/// A later wave never brings fewer enemies than an earlier one: not among
/// the first eleven, not after them, and not from the eleventh to the
/// twelfth.
pub proof fn enemies_to_spawn_monotonic(earlier: int, later: int)
    requires
        1 <= earlier <= later,
    ensures
        enemies_to_spawn(earlier) <= enemies_to_spawn(later),
{
    let n = earlier - 1;
    let m = later - 1;
    if m <= 10 {
        rounded_power_is_listed(n);
        rounded_power_is_listed(m);
    } else if n > 10 {
        floored_power_monotonic(n, m);
    } else {
        rounded_power_is_listed(n);
        enemies_to_spawn_at_the_boundary();
        floored_power_monotonic(11, m);
    }
}

/// Within the waves whose size fits the counter, a wave brings at least
/// four enemies, and no more than the counter holds.
pub proof fn enemies_to_spawn_bounds(wave: int)
    requires
        1 <= wave <= MAX_WAVE,
    ensures
        4 <= enemies_to_spawn(wave) <= 4_294_954_686,
{
    power_unrolled(224_721);
    power_unrolled(4_294_954_682);
    power_unrolled(4_294_954_683);
    assert(is_floored_power(224_721, 4_294_954_682));
    floored_power_exists(224_721);
    floored_power_unique(224_721, 4_294_954_682, floored_power(224_721));
    enemies_to_spawn_at_the_boundary();
    enemies_to_spawn_monotonic(1, wave);
    enemies_to_spawn_monotonic(wave, MAX_WAVE as int);
}

/// However late the wave, its spawns are at least 0.3 seconds apart; those
/// of the first wave are ten seconds apart.
pub proof fn spawn_interval_floor(wave: int)
    ensures
        spawn_interval(wave) >= SHORTEST_INTERVAL,
        spawn_interval(1) == FIRST_INTERVAL,
{
}

/// The number of enemies that the wave `level` brings.
pub fn get_enemies_to_spawn(level: u32) -> (count: u32)
    requires
        1 <= level <= MAX_WAVE,
    ensures
        count == enemies_to_spawn(level as int),
        count >= 4,
{
    let n: u32 = level - 1;
    if n <= 10 {
        proof {
            rounded_power_is_listed(n as int);
        }
        let rounded: u32 = if n <= 3 {
            n
        } else if n <= 6 {
            n + 1
        } else if n <= 9 {
            n + 2
        } else {
            13
        };
        rounded * 5 + 4
    } else {
        proof {
            enemies_to_spawn_bounds(level as int);
        }
        floor_of_power(n) + 4
    }
}

/// `n` to the power 1.8, rounded down.
fn floor_of_power(n: u32) -> (k: u32)
    requires
        1 <= n <= MAX_WAVE - 1,
    ensures
        k == floored_power(n as int),
{
    let ninth = raised(n as u128, 9);
    proof {
        power_monotonic(n as int, 224_721, 9);
        power_unrolled(224_721);
        power_unrolled(0x1_0000_0000);
        power_unrolled(0);
    }
    let mut lo: u64 = 0;
    let mut hi: u64 = 0x1_0000_0000;
    while hi - lo > 1
        invariant
            lo < hi <= 0x1_0000_0000,
            power(lo as int, 5) <= limbs_value(ninth@) < power(hi as int, 5),
            limbs_value(ninth@) == power(n as int, 9),
            is_number(ninth@),
        decreases hi - lo,
    {
        let mid: u64 = lo + (hi - lo) / 2;
        let fifth = raised(mid as u128, 5);
        if at_most(&fifth, &ninth) {
            lo = mid;
        } else {
            hi = mid;
        }
    }
    proof {
        assert(is_floored_power(n as int, lo as int));
        floored_power_exists(n as int);
        floored_power_unique(n as int, lo as int, floored_power(n as int));
    }
    lo as u32
}

/// The milliseconds between two spawns of the wave `wave`.
pub fn get_spawn_timer(wave: u32) -> (interval: i64)
    requires
        wave >= 1,
    ensures
        interval == spawn_interval(wave as int),
        SHORTEST_INTERVAL <= interval <= FIRST_INTERVAL,
{
    let falling: i64 = FIRST_INTERVAL - INTERVAL_STEP * ((wave - 1) as i64);
    if falling > SHORTEST_INTERVAL {
        falling
    } else {
        SHORTEST_INTERVAL
    }
}

} // verus!
