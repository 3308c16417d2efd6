//! Source positions and literal tokens.

use vstd::prelude::*;
use vstd::arithmetic::power::pow;

verus! {

#[derive(Debug, Clone, Copy, PartialEq, Eq, Structural)]
pub struct ByteIndex(pub usize);

/// A half-open byte range `(start, end)` in the source.
pub type Span = (ByteIndex, ByteIndex);

#[derive(Debug, Clone, Copy, PartialEq, Eq)]
pub struct NumberLiteral {
    pub value: usize,
    pub span: (ByteIndex, ByteIndex),
}

#[derive(Debug, PartialEq, Eq)]
pub struct StringLiteral {
    pub value: String,
    pub span: (ByteIndex, ByteIndex),
}

#[derive(Debug, Clone, Copy, PartialEq, Eq, Structural)]
pub struct UniverseLiteral {
    pub level: usize,
    pub start: ByteIndex,
    /// True for a `Prop` literal, false for a `Set` literal.
    pub erasable: bool,
}

/// The number of decimal digits of `n` (`0` has one digit).
pub open spec fn digit_count(n: nat) -> nat
    decreases n,
{
    if n < 10 {
        1
    } else {
        1 + digit_count(n / 10)
    }
}

/// A number has at most as many digits as its value, once it is positive.
proof fn lemma_digit_count_at_most(n: nat)
    requires
        n >= 1,
    ensures
        digit_count(n) <= n,
    decreases n,
{
    if n >= 10 {
        lemma_digit_count_at_most(n / 10);
    }
}

proof fn lemma_digit_count_positive(n: nat)
    ensures
        digit_count(n) >= 1,
    decreases n,
{
    if n >= 10 {
        lemma_digit_count_positive(n / 10);
    }
}

/// The digit count is the length of the decimal representation: a positive
/// number with `d` digits lies in `[10^(d-1), 10^d)`.
pub proof fn law_digit_count_is_decimal_length(n: nat)
    requires
        n >= 1,
    ensures
        pow(10, (digit_count(n) - 1) as nat) <= n < pow(10, digit_count(n)),
    decreases n,
{
    reveal(pow);
    if n < 10 {
        assert(pow(10, 0) == 1);
        assert(pow(10, 1) == 10 * pow(10, 0));
    } else {
        let m = n / 10;
        law_digit_count_is_decimal_length(m);
        lemma_digit_count_positive(m);
        let d = digit_count(m);
        let lo = pow(10, (d - 1) as nat);
        let hi = pow(10, d);
        assert(pow(10, d) == 10 * pow(10, (d - 1) as nat));
        assert(pow(10, d + 1) == 10 * pow(10, d));
        assert(10 * lo <= n) by (nonlinear_arith)
            requires
                lo <= m,
                m == n / 10,
                n >= 10,
        ;
        assert(n < 10 * hi) by (nonlinear_arith)
            requires
                m < hi,
                m == n / 10,
                n >= 10,
        ;
        assert(digit_count(n) == d + 1);
    }
}

pub fn get_digit_count(n: usize) -> (res: usize)
    ensures
        res == digit_count(n as nat),
{
    if n == 0 {
        return 1;
    }
    let ghost original = n as nat;
    proof {
        lemma_digit_count_at_most(original);
    }
    let mut n = n;
    let mut count: usize = 0;
    while n > 0
        invariant
            original >= 1,
            digit_count(original) <= original <= usize::MAX,
            n > 0 ==> count + digit_count(n as nat) == digit_count(original),
            n == 0 ==> count == digit_count(original),
        decreases n,
    {
        n /= 10;
        count += 1;
    }
    count
}

impl UniverseLiteral {
    /// The literal is its keyword (`Prop`, 4 bytes, or `Set`, 3 bytes)
    /// directly followed by the digits of its level.
    pub fn span(&self) -> (res: Span)
        requires
            self.start.0 + (if self.erasable {
                4int
            } else {
                3int
            }) + digit_count(self.level as nat) <= usize::MAX,
        ensures
            res.0 == self.start,
            res.1.0 == self.start.0 + (if self.erasable {
                4int
            } else {
                3int
            }) + digit_count(self.level as nat),
    {
        let kw_len: usize = if self.erasable {
            4
        } else {
            3
        };
        let end = ByteIndex(self.start.0 + kw_len + get_digit_count(self.level));
        (self.start, end)
    }
}

} // verus!
