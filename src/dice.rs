//! Dice: single dice, sums of several, and modifiers floored at zero.

use rand::Rng;
use vstd::prelude::*;

verus! {

/// A roll with a modifier applied, never below zero.
pub open spec fn floor_add(a: int, dm: int) -> int {
    if a + dm < 0 {
        0
    } else {
        a + dm
    }
}

/// A value held to a maximum.
pub open spec fn cap(v: int, max: int) -> int {
    if v > max {
        max
    } else {
        v
    }
}

/// Relies on `rand::thread_rng` and `Rng::gen_range(low, high)` of rand 0.7:
/// the value lies in `[low, high)`, and `gen_range` panics only when
/// `low >= high`. `thread_rng` panics only when the system's random source
/// cannot seed it, which ends the whole run.
#[verifier::external_body]
fn gen_range_u8(low: u8, high: u8) -> (r: u8)
    requires
        low < high,
    ensures
        low <= r < high,
{
    rand::thread_rng().gen_range(low, high)
}

/// One three-sided die.
pub fn rolld3() -> (r: u8)
    ensures
        1 <= r <= 3,
{
    gen_range_u8(1, 4)
}

/// One six-sided die.
pub fn rolld6() -> (r: u8)
    ensures
        1 <= r <= 6,
{
    gen_range_u8(1, 7)
}

/// Adds a signed modifier to a roll, flooring the result at zero.
pub fn safer_add(a: u8, b: i8) -> (r: u8)
    requires
        a + b <= 255,
    ensures
        r == floor_add(a as int, b as int),
{
    let s: i16 = a as i16 + b as i16;
    if s < 0 {
        0
    } else {
        s as u8
    }
}

/// One three-sided die plus a modifier, floored at zero.
pub fn rolld3dm(dm: i8) -> (r: u8)
    ensures
        exists|s: int| 1 <= s <= 3 && r == floor_add(s, dm as int),
{
    let s = rolld3();
    let r = safer_add(s, dm);
    assert(1 <= s as int <= 3 && r == floor_add(s as int, dm as int));
    r
}

/// One six-sided die plus a modifier, floored at zero.
pub fn rolld6dm(dm: i8) -> (r: u8)
    ensures
        exists|s: int| 1 <= s <= 6 && r == floor_add(s, dm as int),
{
    let s = rolld6();
    let r = safer_add(s, dm);
    assert(1 <= s as int <= 6 && r == floor_add(s as int, dm as int));
    r
}

/// The sum of `n` six-sided dice.
pub fn rollnd6(n: u8) -> (r: u8)
    requires
        n <= 42,
    ensures
        n <= r <= 6 * n,
{
    let mut total: u8 = 0;
    let mut i: u8 = 0;
    while i < n
        invariant
            i <= n <= 42,
            i <= total <= 6 * i,
        decreases n - i,
    {
        let d = rolld6();
        total = total + d;
        i = i + 1;
    }
    total
}

/// The sum of `n` six-sided dice plus a modifier, floored at zero.
pub fn rollnd6dm(n: u8, dm: i8) -> (r: u8)
    requires
        n <= 42,
        6 * n + dm <= 255,
    ensures
        exists|s: int| n <= s <= 6 * n && r == floor_add(s, dm as int),
{
    let s = rollnd6(n);
    let r = safer_add(s, dm);
    assert(n <= s as int <= 6 * n && r == floor_add(s as int, dm as int));
    r
}

} // verus!
