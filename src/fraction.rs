//! Exact fractions, the form in which derived physical quantities are kept.
use vstd::prelude::*;

verus! {

/// The fraction `num / den`. Fractions are compared by value, not by their
/// representation: see [`Fraction::same_value`].
#[derive(Debug, Clone, Copy, PartialEq, Eq, Structural)]
pub struct Fraction {
    pub num: i128,
    pub den: i128,
}

impl Fraction {
    /// The fraction as a pair of integers.
    pub open spec fn view(self) -> (int, int) {
        (self.num as int, self.den as int)
    }

    /// Strictly positive, with a positive denominator.
    pub open spec fn is_positive(self) -> bool {
        self.num > 0 && self.den > 0
    }
}

/// `a` and `b` denote the same number (both denominators nonzero).
pub open spec fn same_value(a: (int, int), b: (int, int)) -> bool {
    a.0 * b.1 == b.0 * a.1
}

/// The integer `n` as a fraction.
pub open spec fn whole(n: int) -> (int, int) {
    (n, 1)
}

/// Sum of two fractions.
pub open spec fn frac_add(a: (int, int), b: (int, int)) -> (int, int) {
    (a.0 * b.1 + b.0 * a.1, a.1 * b.1)
}

/// Product of two fractions.
pub open spec fn frac_mul(a: (int, int), b: (int, int)) -> (int, int) {
    (a.0 * b.0, a.1 * b.1)
}

/// Reciprocal of a fraction.
pub open spec fn frac_inv(a: (int, int)) -> (int, int) {
    (a.1, a.0)
}

/// Quotient of two fractions.
pub open spec fn frac_div(a: (int, int), b: (int, int)) -> (int, int) {
    frac_mul(a, frac_inv(b))
}

/// `10^digits`.
pub open spec fn pow10(digits: nat) -> int
    decreases digits,
{
    if digits == 0 {
        1
    } else {
        10 * pow10((digits - 1) as nat)
    }
}

/// `floor(a * 10^digits / b)`, computed digit by digit so that nothing
/// larger than `10 * b` is ever formed.
pub fn scaled_quotient(a: u128, b: u128, digits: u32) -> (q: u128)
    requires
        0 < b <= 10_000_000_000_000_000_000_000_000_000_000_000_000u128,
        a <= b,
        digits <= 30,
    ensures
        q == a * pow10(digits as nat) / (b as int),
{
    let mut q: u128 = 0;
    let mut rem: u128 = a % b;
    let mut i: u32 = 0;
    if a == b {
        rem = 0;
        q = 1;
    }
    assert(q * b + rem == a) by (nonlinear_arith)
        requires
            a <= b,
            a == b ==> (q == 1 && rem == 0),
            a < b ==> (q == 0 && rem == a % b),
            0 < b,
    {
        if a < b {
            vstd::arithmetic::div_mod::lemma_small_mod(a as nat, b as nat);
        }
    }
    while i < digits
        invariant
            0 < b <= 10_000_000_000_000_000_000_000_000_000_000_000_000u128,
            i <= digits <= 30,
            a <= b,
            rem < b,
            q <= pow10(i as nat),
            q * b + rem == a * pow10(i as nat),
        decreases digits - i,
    {
        let ghost old_q = q;
        let ghost old_rem = rem;
        let shifted: u128 = rem * 10;
        let digit: u128 = shifted / b;
        rem = shifted % b;
        proof {
            vstd::arithmetic::div_mod::lemma_fundamental_div_mod(shifted as int, b as int);
        }
        assert(digit < 10) by (nonlinear_arith)
            requires
                shifted < 10 * b,
                digit == shifted / b,
                0 < b,
        ;
        proof {
            lemma_pow10_bound(i as nat);
        }
        q = q * 10 + digit;
        i = i + 1;
        assert(q * b + rem == a * pow10(i as nat)) by (nonlinear_arith)
            requires
                q == old_q * 10 + digit,
                old_q * b + old_rem == a * pow10((i - 1) as nat),
                shifted == old_rem * 10,
                digit * b + rem == shifted,
                pow10(i as nat) == 10 * pow10((i - 1) as nat),
        ;
        assert(q <= pow10(i as nat)) by (nonlinear_arith)
            requires
                q * b + rem == a * pow10(i as nat),
                a <= b,
                0 < b,
                0 <= rem,
                0 <= a,
                pow10(i as nat) >= 0,
        ;
    }
    proof {
        vstd::arithmetic::div_mod::lemma_fundamental_div_mod_converse(
            a * pow10(digits as nat),
            b as int,
            q as int,
            rem as int,
        );
    }
    q
}

/// `10^digits` is positive and at most `10^30` for the digit counts used here.
proof fn lemma_pow10_bound(digits: nat)
    requires
        digits <= 30,
    ensures
        1 <= pow10(digits) <= pow10(30),
        pow10(30) == 1_000_000_000_000_000_000_000_000_000_000int,
    decreases digits,
{
    reveal_with_fuel(pow10, 31);
    if digits > 0 {
        lemma_pow10_bound((digits - 1) as nat);
    }
    lemma_pow10_monotone(digits, 30);
}

proof fn lemma_pow10_monotone(i: nat, j: nat)
    requires
        i <= j,
    ensures
        pow10(i) <= pow10(j),
        pow10(i) >= 1,
    decreases j,
{
    if j > i {
        lemma_pow10_monotone(i, (j - 1) as nat);
    } else if i > 0 {
        lemma_pow10_monotone((i - 1) as nat, (i - 1) as nat);
    }
}

} // verus!
