//! Decimal amounts and the conversion from a user-facing token supply to
//! raw mint units.
//!
//! A user supplies a token amount as a decimal number; the ledger counts in
//! raw units of `10^-decimals` tokens. The conversion is
//! `round(supply * 10^decimals)`, rounding halves up, computed here exactly
//! over integers: a [`DecimalAmount`] keeps the supply as
//! `mantissa / 10^scale`.

use vstd::arithmetic::div_mod::{
    lemma_div_multiples_vanish, lemma_div_multiples_vanish_fancy, lemma_div_multiples_vanish_quotient,
    lemma_fundamental_div_mod, lemma_multiply_divide_lt,
};
use vstd::arithmetic::mul::lemma_mul_is_distributive_add;
use vstd::prelude::*;

use crate::errors::SpliffError;

verus! {

/// A non-negative decimal number, `mantissa / 10^scale`.
///
/// `DecimalAmount { mantissa: 15, scale: 1 }` is the number 1.5;
/// `DecimalAmount { mantissa: 1000, scale: 0 }` is the number 1000.
#[derive(Clone, Copy, PartialEq, Eq, Structural, Debug)]
pub struct DecimalAmount {
    pub mantissa: u64,
    pub scale: u8,
}

/// `10^e` over naturals.
pub open spec fn pow10(e: nat) -> nat
    decreases e,
{
    if e == 0 {
        1
    } else {
        10 * pow10((e - 1) as nat)
    }
}

/// `10^e` is at least 1.
pub proof fn lemma_pow10_pos(e: nat)
    ensures
        pow10(e) >= 1,
    decreases e,
{
    if e > 0 {
        lemma_pow10_pos((e - 1) as nat);
    }
}

/// Powers of ten multiply: `10^(a+b) == 10^a * 10^b`.
pub proof fn lemma_pow10_adds(a: nat, b: nat)
    ensures
        pow10(a + b) == pow10(a) * pow10(b),
    decreases a,
{
    if a == 0 {
        assert(pow10(a) == 1);
        assert(pow10(a + b) == pow10(b));
        assert(pow10(a) * pow10(b) == pow10(b)) by (nonlinear_arith)
            requires pow10(a) == 1;
    } else {
        lemma_pow10_adds((a - 1) as nat, b);
        assert(pow10(a + b) == 10 * pow10((a - 1) as nat + b));
        assert(pow10(a) == 10 * pow10((a - 1) as nat));
        assert(pow10(a + b) == pow10(a) * pow10(b)) by (nonlinear_arith)
            requires
                pow10(a + b) == 10 * pow10((a - 1) as nat + b),
                pow10((a - 1) as nat + b) == pow10((a - 1) as nat) * pow10(b),
                pow10(a) == 10 * pow10((a - 1) as nat),
        ;
    }
}

/// Powers of ten grow with the exponent.
pub proof fn lemma_pow10_increases(e1: nat, e2: nat)
    requires
        e1 <= e2,
    ensures
        pow10(e1) <= pow10(e2),
{
    lemma_pow10_adds(e1, (e2 - e1) as nat);
    lemma_pow10_pos(e1);
    lemma_pow10_pos((e2 - e1) as nat);
    assert(pow10(e1) * pow10((e2 - e1) as nat) >= pow10(e1) * 1) by (nonlinear_arith)
        requires pow10((e2 - e1) as nat) >= 1, pow10(e1) >= 1;
}

/// For a positive exponent, `10^e` is even and its half is exact.
proof fn lemma_pow10_half(e: nat)
    requires
        e >= 1,
    ensures
        pow10(e) / 2 * 2 == pow10(e),
{
    let p = pow10((e - 1) as nat);
    assert(pow10(e) == 10 * p);
    assert(10 * p == 2 * (5 * p)) by (nonlinear_arith);
    lemma_div_multiples_vanish(5 * p as int, 2);
    assert((2 * (5 * p)) / 2 == 5 * p);
    assert(pow10(e) / 2 == 5 * p);
}

/// `round(m * 10^d / 10^s)` over naturals, rounding halves up.
pub open spec fn rounded_scaled_amount(m: nat, s: nat, d: nat) -> nat {
    (m * pow10(d) + pow10(s) / 2) / pow10(s)
}

/// The raw mint amount for a supply of `mantissa / 10^scale` tokens with
/// `decimals` decimal places: `round(mantissa * 10^decimals / 10^scale)`,
/// rounding halves up.
pub open spec fn mint_amount_spec(supply: DecimalAmount, decimals: u8) -> nat {
    rounded_scaled_amount(supply.mantissa as nat, supply.scale as nat, decimals as nat)
}

/// When the requested decimals are at least the supply's scale, the rounding
/// is exact: the amount is `mantissa * 10^(decimals - scale)`.
proof fn lemma_mint_amount_scale_up(m: nat, s: nat, d: nat)
    requires
        s <= d,
    ensures
        (m * pow10(d) + pow10(s) / 2) / pow10(s) == m * pow10((d - s) as nat),
{
    let k = (d - s) as nat;
    let q = pow10(s);
    lemma_pow10_pos(s);
    lemma_pow10_adds(k, s);
    assert(m * pow10(d) == (m * pow10(k)) * q) by (nonlinear_arith)
        requires pow10(d) == pow10(k) * q;
    lemma_fundamental_div_mod(q as int, 2);
    assert(q / 2 < q);
    lemma_div_multiples_vanish_fancy((m * pow10(k)) as int, (q / 2) as int, q as int);
    assert((q * (m * pow10(k)) + q / 2) / q == m * pow10(k));
    assert(q * (m * pow10(k)) == (m * pow10(k)) * q) by (nonlinear_arith);
}

/// When the requested decimals are below the supply's scale, the amount is
/// the mantissa divided by `10^(scale - decimals)`, rounding halves up.
proof fn lemma_mint_amount_scale_down(m: nat, s: nat, d: nat)
    requires
        d < s,
    ensures
        (m * pow10(d) + pow10(s) / 2) / pow10(s) == (m + pow10((s - d) as nat) / 2) / pow10(
            (s - d) as nat,
        ),
{
    let j = (s - d) as nat;
    let p = pow10(d);
    let q = pow10(j);
    let h = q / 2;
    lemma_pow10_pos(d);
    lemma_pow10_pos(j);
    lemma_pow10_adds(d, j);
    assert(pow10(s) == p * q);
    lemma_pow10_half(j);
    assert(p * q == 2 * (p * h)) by (nonlinear_arith)
        requires q == h * 2;
    lemma_div_multiples_vanish((p * h) as int, 2);
    assert((2 * (p * h)) / 2 == p * h);
    assert(pow10(s) / 2 == p * h);
    lemma_mul_is_distributive_add(p as int, m as int, h as int);
    assert(m * p == p * m) by (nonlinear_arith);
    assert(m * pow10(d) + pow10(s) / 2 == p * (m + h));
    lemma_div_multiples_vanish_quotient(p as int, (m + h) as int, q as int);
    assert((m + h) / q == (p * (m + h)) / (p * q));
}

/// The raw mint amount `round(supply * 10^decimals)`, when it fits in a
/// `u64`; `None` exactly when the exact rounded amount exceeds `u64::MAX`.
pub fn checked_mint_amount(supply: &DecimalAmount, decimals: u8) -> (r: Option<u64>)
    ensures
        r matches Some(a) ==> a == mint_amount_spec(*supply, decimals),
        r is Some <==> mint_amount_spec(*supply, decimals) <= u64::MAX,
{
    let m: u128 = supply.mantissa as u128;
    let s: u32 = supply.scale as u32;
    let d: u32 = decimals as u32;
    let ghost amt = mint_amount_spec(*supply, decimals);
    if d >= s {
        let k: u32 = d - s;
        proof {
            lemma_mint_amount_scale_up(supply.mantissa as nat, s as nat, d as nat);
            assert(amt == (supply.mantissa as nat) * pow10(k as nat));
        }
        match checked_pow10(k) {
            None => {
                // 10^k alone exceeds u128::MAX; any positive mantissa is far
                // beyond u64::MAX, and a zero mantissa gives amount zero.
                if m == 0 {
                    proof {
                        assert(amt == 0) by (nonlinear_arith)
                            requires amt == (supply.mantissa as nat) * pow10(k as nat),
                                supply.mantissa == 0;
                    }
                    Some(0)
                } else {
                    proof {
                        lemma_pow10_pos(k as nat);
                        assert(amt >= pow10(k as nat)) by (nonlinear_arith)
                            requires amt == (supply.mantissa as nat) * pow10(k as nat),
                                supply.mantissa >= 1, pow10(k as nat) >= 1;
                    }
                    None
                }
            },
            Some(p) => {
                match m.checked_mul(p) {
                    None => {
                        proof {
                            assert(amt > u128::MAX);
                        }
                        None
                    },
                    Some(prod) => {
                        if prod <= u64::MAX as u128 {
                            Some(prod as u64)
                        } else {
                            None
                        }
                    },
                }
            },
        }
    } else {
        let j: u32 = s - d;
        proof {
            lemma_mint_amount_scale_down(supply.mantissa as nat, s as nat, d as nat);
            assert(amt == ((supply.mantissa as nat) + pow10(j as nat) / 2) / pow10(j as nat));
        }
        match checked_pow10(j) {
            None => {
                // 10^j exceeds u128::MAX, so its half still dwarfs the
                // mantissa: the rounded amount is zero.
                proof {
                    let q = pow10(j as nat);
                    lemma_pow10_pos(j as nat);
                    lemma_fundamental_div_mod(q as int, 2);
                    assert(supply.mantissa < q / 2);
                    assert(supply.mantissa + q / 2 < q);
                    lemma_div_multiples_vanish_fancy(0, (supply.mantissa + q / 2) as int, q as int);
                    assert((q * 0 + (supply.mantissa + q / 2)) / (q as int) == 0);
                    assert(q * 0 == 0) by (nonlinear_arith);
                    assert(amt == 0);
                }
                Some(0)
            },
            Some(q) => {
                let h: u128 = q / 2;
                proof {
                    lemma_pow10_pos(j as nat);
                    lemma_fundamental_div_mod(q as int, 2);
                }
                let num: u128 = m + h;
                let quot: u128 = num / q;
                proof {
                    assert(num < q * (m + 1)) by (nonlinear_arith)
                        requires num == m + h, h < q, m >= 0, q >= 1;
                    lemma_multiply_divide_lt(num as int, q as int, (m + 1) as int);
                    assert(quot <= m);
                }
                Some(quot as u64)
            },
        }
    }
}

/// `10^e` as a `u128`; `None` exactly when `10^e` overflows it.
fn checked_pow10(e: u32) -> (r: Option<u128>)
    ensures
        r matches Some(p) ==> p == pow10(e as nat),
        r is None ==> pow10(e as nat) > u128::MAX,
{
    let mut i: u32 = 0;
    let mut acc: u128 = 1;
    while i < e
        invariant
            i <= e,
            acc == pow10(i as nat),
        decreases e - i,
    {
        acc = match acc.checked_mul(10) {
            Some(v) => v,
            None => {
                proof {
                    assert(pow10((i + 1) as nat) == 10 * pow10(i as nat));
                    lemma_pow10_increases((i + 1) as nat, e as nat);
                    assert(acc * 10 == 10 * acc) by (nonlinear_arith);
                }
                return None;
            },
        };
        proof {
            assert(pow10((i + 1) as nat) == 10 * pow10(i as nat));
        }
        i = i + 1;
    }
    Some(acc)
}

/// One step of reading a decimal literal such as "1000", "1000.5" or ".25"
/// from its bytes, left to right: `mantissa` accumulates the digits read so
/// far with the dot ignored, `scale` counts the digits read after the dot.
/// The result is the final (mantissa, scale) pair, or `None` when the bytes
/// are not a decimal literal: a second dot, a byte that is neither digit nor
/// dot, or no digit at all.
pub open spec fn decimal_scan(
    s: Seq<u8>,
    i: nat,
    mantissa: nat,
    seen_dot: bool,
    scale: nat,
    seen_digit: bool,
) -> Option<(nat, nat)>
    decreases s.len() - i,
{
    if i >= s.len() {
        if seen_digit {
            Some((mantissa, scale))
        } else {
            None
        }
    } else if s[i as int] == 46 {  // the dot
        if seen_dot {
            None
        } else {
            decimal_scan(s, i + 1, mantissa, true, scale, seen_digit)
        }
    } else if 48 <= s[i as int] <= 57 {  // a decimal digit
        decimal_scan(
            s,
            i + 1,
            10 * mantissa + (s[i as int] - 48) as nat,
            seen_dot,
            if seen_dot {
                scale + 1
            } else {
                scale
            },
            true,
        )
    } else {
        None
    }
}

/// The (mantissa, scale) reading of a whole decimal literal.
pub open spec fn decimal_literal_value(s: Seq<u8>) -> Option<(nat, nat)> {
    decimal_scan(s, 0, 0, false, 0, false)
}

/// Whatever a scan accumulates never shrinks: the final mantissa and scale
/// are at least the ones already read.
proof fn lemma_decimal_scan_monotone(
    s: Seq<u8>,
    i: nat,
    mantissa: nat,
    seen_dot: bool,
    scale: nat,
    seen_digit: bool,
)
    ensures
        decimal_scan(s, i, mantissa, seen_dot, scale, seen_digit) matches Some(v) ==> v.0
            >= mantissa && v.1 >= scale,
    decreases s.len() - i,
{
    if i >= s.len() {
    } else if s[i as int] == 46 {
        if !seen_dot {
            lemma_decimal_scan_monotone(s, i + 1, mantissa, true, scale, seen_digit);
        }
    } else if 48 <= s[i as int] <= 57 {
        let m2 = 10 * mantissa + (s[i as int] - 48) as nat;
        assert(10 * mantissa + (s[i as int] - 48) as nat >= mantissa) by (nonlinear_arith);
        if seen_dot {
            lemma_decimal_scan_monotone(s, i + 1, m2, seen_dot, scale + 1, true);
        } else {
            lemma_decimal_scan_monotone(s, i + 1, m2, seen_dot, scale, true);
        }
    }
}

/// Parses a non-negative decimal literal, given as bytes, into the exact
/// [`DecimalAmount`] it denotes. Rejected with an
/// [`SpliffError::InputError`]: bytes that are no decimal literal, a
/// mantissa beyond `u64::MAX`, and more than 255 digits after the dot.
pub fn parse_decimal_amount(text: &[u8]) -> (r: Result<DecimalAmount, SpliffError>)
    ensures
        r matches Ok(d) ==> decimal_literal_value(text@) == Some(
            (d.mantissa as nat, d.scale as nat),
        ),
        r is Ok <==> (decimal_literal_value(text@) matches Some(v) && v.0 <= u64::MAX && v.1
            <= 255),
        r matches Err(e) ==> e is InputError,
{
    let mut i: usize = 0;
    let mut mantissa: u64 = 0;
    let mut seen_dot: bool = false;
    let mut scale: u8 = 0;
    let mut seen_digit: bool = false;
    while i < text.len()
        invariant
            i <= text.len(),
            decimal_literal_value(text@) == decimal_scan(
                text@,
                i as nat,
                mantissa as nat,
                seen_dot,
                scale as nat,
                seen_digit,
            ),
            !seen_dot ==> scale == 0,
        decreases text.len() - i,
    {
        let byte: u8 = text[i];
        if byte == 46 {
            if seen_dot {
                return Err(invalid_decimal_literal());
            }
            seen_dot = true;
        } else if 48 <= byte && byte <= 57 {
            proof {
                lemma_decimal_scan_monotone(
                    text@,
                    (i + 1) as nat,
                    (10 * mantissa + (byte - 48)) as nat,
                    seen_dot,
                    if seen_dot {
                        (scale + 1) as nat
                    } else {
                        scale as nat
                    },
                    true,
                );
            }
            mantissa = match mantissa.checked_mul(10) {
                Some(m) => match m.checked_add((byte - 48) as u64) {
                    Some(m) => m,
                    None => {
                        return Err(invalid_decimal_literal());
                    },
                },
                None => {
                    return Err(invalid_decimal_literal());
                },
            };
            if seen_dot {
                if scale == 255 {
                    return Err(invalid_decimal_literal());
                }
                scale = scale + 1;
            }
            seen_digit = true;
        } else {
            return Err(invalid_decimal_literal());
        }
        i = i + 1;
    }
    if !seen_digit {
        return Err(invalid_decimal_literal());
    }
    Ok(DecimalAmount { mantissa, scale })
}

/// The rejection used for every malformed supply literal.
fn invalid_decimal_literal() -> (r: SpliffError)
    ensures
        r is InputError,
{
    SpliffError::InputError(
        "invalid supply: expected a non-negative decimal number".to_owned(),
    )
}

/// The decimal digit character for a value below ten.
pub open spec fn decimal_digit(d: nat) -> char {
    if d == 0 {
        '0'
    } else if d == 1 {
        '1'
    } else if d == 2 {
        '2'
    } else if d == 3 {
        '3'
    } else if d == 4 {
        '4'
    } else if d == 5 {
        '5'
    } else if d == 6 {
        '6'
    } else if d == 7 {
        '7'
    } else if d == 8 {
        '8'
    } else {
        '9'
    }
}

/// The decimal text of a natural number, without sign or leading zeros.
pub open spec fn decimal_string_of(n: nat) -> Seq<char>
    decreases n,
{
    if n < 10 {
        seq![decimal_digit(n)]
    } else {
        decimal_string_of(n / 10).push(decimal_digit(n % 10))
    }
}

/// Appends the decimal text of `n` to `s`.
fn push_decimal_digits(n: u64, s: &mut String)
    ensures
        final(s)@ == old(s)@ + decimal_string_of(n as nat),
    decreases n,
{
    if n >= 10 {
        proof {
            lemma_fundamental_div_mod(n as int, 10);
        }
        push_decimal_digits(n / 10, s);
    }
    let digit: u64 = n % 10;
    let text: &str = if digit == 0 {
        "0"
    } else if digit == 1 {
        "1"
    } else if digit == 2 {
        "2"
    } else if digit == 3 {
        "3"
    } else if digit == 4 {
        "4"
    } else if digit == 5 {
        "5"
    } else if digit == 6 {
        "6"
    } else if digit == 7 {
        "7"
    } else if digit == 8 {
        "8"
    } else {
        "9"
    };
    proof {
        reveal_strlit("0");
        reveal_strlit("1");
        reveal_strlit("2");
        reveal_strlit("3");
        reveal_strlit("4");
        reveal_strlit("5");
        reveal_strlit("6");
        reveal_strlit("7");
        reveal_strlit("8");
        reveal_strlit("9");
        assert(text@ =~= seq![decimal_digit((n % 10) as nat)]);
    }
    s.append(text);
    proof {
        if n < 10 {
            assert(decimal_string_of(n as nat) =~= seq![decimal_digit(n as nat)]);
            assert(s@ =~= old(s)@ + decimal_string_of(n as nat));
        } else {
            assert(decimal_string_of(n as nat) =~= decimal_string_of((n / 10) as nat).push(
                decimal_digit((n % 10) as nat),
            ));
            assert(s@ =~= old(s)@ + decimal_string_of(n as nat));
        }
    }
}

/// The decimal text of a raw amount, as the response bodies report it.
pub fn amount_to_string(n: u64) -> (r: String)
    ensures
        r@ == decimal_string_of(n as nat),
{
    let mut s = String::new();
    push_decimal_digits(n, &mut s);
    proof {
        assert(s@ =~= decimal_string_of(n as nat));
    }
    s
}

} // verus!
