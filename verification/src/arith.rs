//! Small verified integer helpers: exact addition, subtraction, truncating
//! division and an evenness test on `i32`.

use vstd::prelude::*;

verus! {

/// Sum of `a` and `b`. The result must fit in an `i32`.
pub fn add(a: i32, b: i32) -> (r: i32)
    requires
        i32::MIN <= a + b <= i32::MAX,
    ensures
        r == a + b,
{
    a + b
}

/// Difference of `a` and `b`. The result must fit in an `i32`.
pub fn subtract(a: i32, b: i32) -> (r: i32)
    requires
        i32::MIN <= a - b <= i32::MAX,
    ensures
        r == a - b,
{
    a - b
}

/// Quotient of `a` by `b`, rounded toward zero as machine division does.
/// The divisor must be non-zero and the quotient must fit in an `i32`
/// (which rules out exactly `i32::MIN / -1`).
pub fn divide(a: i32, b: i32) -> (r: i32)
    requires
        b != 0,
        !(a == i32::MIN && b == -1),
    ensures
        Some(r) == a.checked_div(b),
        a >= 0 && b > 0 ==> r == a as int / b as int,
{
    proof {
        let x = a as int;
        let d = b as int;
        if x > 0 && d > 0 {
            vstd::arithmetic::div_mod::lemma_div_pos_is_pos(x, d);
            vstd::arithmetic::div_mod::lemma_div_nonincreasing(x, d);
        } else if x < 0 && d < 0 {
            vstd::arithmetic::div_mod::lemma_div_pos_is_pos(-x, -d);
            if d == -1 {
                vstd::arithmetic::div_mod::lemma_div_nonincreasing(-x, 1);
            } else {
                vstd::arithmetic::div_mod::lemma_div_is_ordered_by_denominator(-x, 2, -d);
                vstd::arithmetic::div_mod::lemma_div_is_ordered(-x, i32::MAX as int + 1, 2);
            }
        } else if x < 0 && d > 0 {
            vstd::arithmetic::div_mod::lemma_div_pos_is_pos(-x, d);
            vstd::arithmetic::div_mod::lemma_div_nonincreasing(-x, d);
        } else if x > 0 && d < 0 {
            vstd::arithmetic::div_mod::lemma_div_pos_is_pos(x, -d);
            vstd::arithmetic::div_mod::lemma_div_nonincreasing(x, -d);
        }
    }
    a.checked_div(b).unwrap()
}

/// Whether `n` is divisible by two.
pub fn is_even(n: i32) -> (r: bool)
    ensures
        r == (n % 2 == 0),
{
    let rem = n.checked_rem(2).unwrap();
    rem == 0
}

} // verus!
