//! Three small operations on plain values: integer addition, integer
//! multiplication, and a package version constant.
//!
//! Addition and multiplication are total over `i64`: they wrap around on
//! overflow, and the contracts state the wrapped result exactly as a
//! residue modulo 2^64. When the mathematical result fits in `i64`, it is
//! returned unchanged.

use vstd::prelude::*;
use vstd::arithmetic::div_mod::lemma_small_mod;
use vstd::arithmetic::div_mod::lemma_mod_multiples_vanish;

verus! {

/// The number of distinct `i64` values, 2^64.
pub const MODULUS: u128 = 0x1_0000_0000_0000_0000;

/// Package version (matches the version in the package manifest).
pub const VERSION: &'static str = "0.1.0";

/// The unique integer in `[i64::MIN, i64::MAX]` congruent to `x` modulo 2^64.
///
/// This is the mathematical model of two's-complement wrap-around: every
/// arithmetic result is reduced by it before being returned as an `i64`.
pub open spec fn wrap64(x: int) -> int {
    let m = x % (MODULUS as int);
    if m > i64::MAX as int {
        m - (MODULUS as int)
    } else {
        m
    }
}

/// Adds two numbers together, wrapping around on overflow.
///
/// Returns the sum of `a` and `b` reduced into the `i64` range modulo 2^64;
/// whenever `a + b` fits in `i64`, that is the exact sum.
pub fn add(a: i64, b: i64) -> (r: i64)
    ensures
        r == wrap64(a + b),
        i64::MIN <= a + b <= i64::MAX ==> r == a + b,
{
    proof {
        lemma_wrap64_near_range(a + b);
    }
    a.wrapping_add(b)
}

/// Multiplies two numbers together, wrapping around on overflow.
///
/// Returns the product of `a` and `b` reduced into the `i64` range modulo
/// 2^64; whenever `a * b` fits in `i64`, that is the exact product.
pub fn multiply(a: i64, b: i64) -> (r: i64)
    ensures
        r == wrap64(a * b),
        i64::MIN <= a * b <= i64::MAX ==> r == a * b,
{
    proof {
        if i64::MIN <= a * b <= i64::MAX {
            lemma_wrap64_near_range(a * b);
        }
    }
    a.wrapping_mul(b)
}

/// `wrap64` on an integer at most one modulus away from the `i64` range is
/// the identity on that range and otherwise shifts by exactly one modulus:
/// the shape of a single two's-complement overflow.
proof fn lemma_wrap64_near_range(x: int)
    requires
        i64::MIN - MODULUS <= x <= i64::MAX + MODULUS,
    ensures
        i64::MIN <= x <= i64::MAX ==> wrap64(x) == x,
        x > i64::MAX ==> wrap64(x) == x - MODULUS,
        x < i64::MIN ==> wrap64(x) == x + MODULUS,
{
    let m = MODULUS as int;
    if 0 <= x < m {
        lemma_small_mod(x as nat, m as nat);
    } else if x >= m {
        lemma_small_mod((x - m) as nat, m as nat);
        lemma_mod_multiples_vanish(1, x - m, m);
        assert(x % m == x - m);
    } else if x >= -m {
        lemma_small_mod((x + m) as nat, m as nat);
        lemma_mod_multiples_vanish(-1, x + m, m);
        assert(x % m == x + m);
    } else {
        lemma_small_mod((x + 2 * m) as nat, m as nat);
        lemma_mod_multiples_vanish(-2, x + 2 * m, m);
        assert(x % m == x + 2 * m);
    }
}

/// Addition is commutative: `add(a, b)` equals `add(b, a)` for all operands.
pub proof fn lemma_add_commutes(a: i64, b: i64)
    ensures
        wrap64(a + b) == wrap64(b + a),
{
}

/// Subtracting an operand undoes adding it: wrapping subtraction of `b`
/// from `add(a, b)` yields `a` again, for all operands.
pub proof fn lemma_add_sub_inverts(a: i64, b: i64)
    ensures
        wrap64(wrap64(a + b) - b) == a,
{
    let m: int = MODULUS as int;
    lemma_wrap64_near_range(a + b);
    if a + b > i64::MAX {
        assert(wrap64(a + b) - b == a - m);
        lemma_wrap64_near_range(a - m);
    } else if a + b < i64::MIN {
        assert(wrap64(a + b) - b == a + m);
        lemma_wrap64_near_range(a + m);
    } else {
        lemma_wrap64_near_range(a as int);
    }
}

/// Zero is the additive identity: `add(a, 0)` equals `a` for every operand.
pub proof fn lemma_add_zero(a: i64)
    ensures
        wrap64(a + 0) == a,
{
    lemma_wrap64_near_range(a as int);
}

/// Multiplication is commutative: `multiply(a, b)` equals `multiply(b, a)`
/// for all operands.
pub proof fn lemma_multiply_commutes(a: i64, b: i64)
    ensures
        wrap64(a * b) == wrap64(b * a),
{
    assert(a * b == b * a) by (nonlinear_arith);
}

/// Zero is absorbing: `multiply(a, 0)` equals `0` for every operand.
pub proof fn lemma_multiply_zero(a: i64)
    ensures
        wrap64(a * 0) == 0,
{
    assert(a * 0 == 0) by (nonlinear_arith);
    lemma_wrap64_near_range(0);
}

/// Holds when `c` is a decimal digit.
pub open spec fn is_decimal_digit(c: char) -> bool {
    '0' <= c && c <= '9'
}

/// Holds when `s` begins with a major version of `0` followed by dotted
/// numeric minor and patch components: a prefix of the shape
/// `0.<digits>.<digits>`.
pub open spec fn starts_with_dotted_zero_version(s: Seq<char>) -> bool {
    s.len() >= 5 && s[0] == '0' && s[1] == '.' && (exists|i: int|
        3 <= i && i + 1 < s.len() && #[trigger] s[i] == '.' && (forall|k: int|
            2 <= k < i ==> is_decimal_digit(#[trigger] s[k])) && is_decimal_digit(s[i + 1]))
}

/// The version constant is non-empty and begins with `0.` followed by
/// dotted numeric minor and patch components.
pub proof fn lemma_version_well_formed()
    ensures
        VERSION@.len() > 0,
        starts_with_dotted_zero_version(VERSION@),
{
    reveal_strlit("0.1.0");
    assert(VERSION@ == "0.1.0"@);
    assert(VERSION@[3] == '.');
    assert(is_decimal_digit(VERSION@[2]));
    assert(is_decimal_digit(VERSION@[4]));
}

} // verus!

