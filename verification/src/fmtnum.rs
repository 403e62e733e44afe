//! Decimal rendering of integers and of fixed-point micro-unit values.
//!
//! A coordinate is carried as a signed count of micro-units (one
//! millionth of a coordinate unit). Rendering writes the integer part,
//! and a fractional part only where it is non-zero, with trailing zeros
//! removed — `166021440000` micro-units render as `166021.44`.

use vstd::prelude::*;

use vstd::string::StringExecFns;

verus! {

/// One micro-unit is a millionth of a coordinate unit.
pub const MICRO_SCALE: i64 = 1_000_000;

/// The decimal digit character for `d`.
pub open spec fn digit_char(d: int) -> char {
    if d == 0 {
        '0'
    } else if d == 1 {
        '1'
    } else if d == 2 {
        '2'
    } else if d == 3 {
        '3'
    } else if d == 4 {
        '4'
    } else if d == 5 {
        '5'
    } else if d == 6 {
        '6'
    } else if d == 7 {
        '7'
    } else if d == 8 {
        '8'
    } else {
        '9'
    }
}

/// The decimal digits of `n`, without sign or padding.
pub open spec fn dec_digits(n: nat) -> Seq<char>
    decreases n,
{
    if n < 10 {
        seq![digit_char(n as int)]
    } else {
        dec_digits(n / 10).push(digit_char((n % 10) as int))
    }
}

/// The last `width` decimal digits of `n`, zero-padded on the left.
pub open spec fn dec_digits_padded(n: nat, width: nat) -> Seq<char>
    decreases width,
{
    if width == 0 {
        Seq::empty()
    } else {
        dec_digits_padded(n / 10, (width - 1) as nat).push(digit_char((n % 10) as int))
    }
}

/// `s` with every trailing `'0'` removed.
pub open spec fn strip_trailing_zeros(s: Seq<char>) -> Seq<char>
    decreases s.len(),
{
    if s.len() > 0 && s.last() == '0' {
        strip_trailing_zeros(s.drop_last())
    } else {
        s
    }
}

/// The rendering of `v` micro-units as a decimal coordinate: sign,
/// integer part, and the non-zero fractional digits if any.
pub open spec fn fixed_micro_chars(v: int) -> Seq<char> {
    let sign: Seq<char> = if v < 0 {
        seq!['-']
    } else {
        Seq::empty()
    };
    let a = abs_of(v);
    let int_part = dec_digits(a / (MICRO_SCALE as nat));
    let frac = a % (MICRO_SCALE as nat);
    if frac == 0 {
        sign + int_part
    } else {
        sign + int_part + seq!['.'] + strip_trailing_zeros(dec_digits_padded(frac, 6))
    }
}

/// The absolute value of `v`, as a natural number.
pub open spec fn abs_of(v: int) -> nat {
    if v < 0 {
        (-v) as nat
    } else {
        v as nat
    }
}

/// Appends the single decimal digit `d` to `s`.
fn push_digit(s: &mut String, d: u64)
    requires
        d < 10,
    ensures
        final(s)@ == old(s)@ + seq![digit_char(d as int)],
{
    let lit: &str = if d == 0 {
        "0"
    } else if d == 1 {
        "1"
    } else if d == 2 {
        "2"
    } else if d == 3 {
        "3"
    } else if d == 4 {
        "4"
    } else if d == 5 {
        "5"
    } else if d == 6 {
        "6"
    } else if d == 7 {
        "7"
    } else if d == 8 {
        "8"
    } else {
        "9"
    };
    proof {
        reveal_strlit("0");
        reveal_strlit("1");
        reveal_strlit("2");
        reveal_strlit("3");
        reveal_strlit("4");
        reveal_strlit("5");
        reveal_strlit("6");
        reveal_strlit("7");
        reveal_strlit("8");
        reveal_strlit("9");
        assert(lit@ =~= seq![digit_char(d as int)]);
    }
    s.append(lit);
}

/// Appends the decimal digits of `n`.
fn push_u64(s: &mut String, n: u64)
    ensures
        final(s)@ == old(s)@ + dec_digits(n as nat),
    decreases n,
{
    if n < 10 {
        push_digit(s, n);
    } else {
        push_u64(s, n / 10);
        push_digit(s, n % 10);
        proof {
            assert(s@ =~= old(s)@ + dec_digits(n as nat));
        }
    }
}

/// Appends the last `width` decimal digits of `n`, zero-padded.
fn push_u64_padded(s: &mut String, n: u64, width: u64)
    ensures
        final(s)@ == old(s)@ + dec_digits_padded(n as nat, width as nat),
    decreases width,
{
    if width == 0 {
        proof {
            assert(s@ =~= old(s)@ + dec_digits_padded(n as nat, 0));
        }
    } else {
        push_u64_padded(s, n / 10, width - 1);
        push_digit(s, n % 10);
        proof {
            assert(s@ =~= old(s)@ + dec_digits_padded(n as nat, width as nat));
        }
    }
}

/// Powers of ten.
pub open spec fn pow10(k: nat) -> nat
    decreases k,
{
    if k == 0 {
        1
    } else {
        10 * pow10((k - 1) as nat)
    }
}

proof fn lemma_strip_padded_one(n: nat, width: nat, k: nat)
    ensures
        strip_trailing_zeros(dec_digits_padded(n * pow10(k), width + k)) == strip_trailing_zeros(
            dec_digits_padded(n, width),
        ),
    decreases k,
{
    if k == 0 {
        assert(pow10(0) == 1);
        assert(n * 1 == n) by (nonlinear_arith);
    } else {
        let m = n * pow10(k);
        assert(pow10(k) == 10 * pow10((k - 1) as nat));
        assert(m == (n * pow10((k - 1) as nat)) * 10) by (nonlinear_arith)
            requires
                pow10(k) == 10 * pow10((k - 1) as nat),
                m == n * pow10(k),
        ;
        let m1 = n * pow10((k - 1) as nat);
        assert(m % 10 == 0 && m / 10 == m1) by (nonlinear_arith)
            requires
                m == m1 * 10,
        ;
        assert(dec_digits_padded(m, width + k) == dec_digits_padded(
            m1,
            ((width + k) - 1) as nat,
        ).push(digit_char(0)));
        assert(dec_digits_padded(m, width + k).last() == '0');
        assert(dec_digits_padded(m, width + k).drop_last() =~= dec_digits_padded(
            m1,
            (width + k - 1) as nat,
        ));
        lemma_strip_padded_one(n, width, (k - 1) as nat);
    }
}

/// Renders `v` micro-units as a decimal coordinate string.
pub fn format_fixed_micro(v: i64) -> (r: String)
    ensures
        r@ == fixed_micro_chars(v as int),
{
    let mut s = String::new();
    if v < 0 {
        proof {
            reveal_strlit("-");
            assert("-"@ =~= seq!['-']);
        }
        s.append("-");
    }
    let a: u64 = if v < 0 {
        if v == i64::MIN {
            9_223_372_036_854_775_808u64
        } else {
            (-v) as u64
        }
    } else {
        v as u64
    };
    proof {
        assert(a == abs_of(v as int));
    }
    let int_part: u64 = a / 1_000_000;
    let frac: u64 = a % 1_000_000;
    push_u64(&mut s, int_part);
    if frac > 0 {
        proof {
            reveal_strlit(".");
            assert("."@ =~= seq!['.']);
        }
        s.append(".");
        let mut f = frac;
        let mut width: u64 = 6;
        let ghost mut k: nat = 0nat;
        proof {
            assert(frac as nat * pow10(0) == frac as nat) by (nonlinear_arith);
        }
        while f % 10 == 0
            invariant
                1 <= f,
                1 <= frac < 1000000,
                width + k == 6,
                f as nat * pow10(k) == frac as nat,
            decreases f,
        {
            proof {
                reveal_with_fuel(pow10, 7);
                if width == 0 {
                    assert(f as nat * pow10(6nat) >= 10 * pow10(6nat)) by (nonlinear_arith)
                        requires
                            f >= 10,
                    ;
                    assert(false);
                }
            }
            let ghost f_old: u64 = f;
            f = f / 10;
            width = width - 1;
            proof {
                assert(f_old == f * 10);
                assert(f as nat * pow10(k + 1) == frac as nat) by (nonlinear_arith)
                    requires
                        f_old as nat * pow10(k) == frac as nat,
                        f_old == f * 10,
                        pow10(k + 1) == 10 * pow10(k),
                ;
                k = k + 1;
            }
        }
        proof {
            reveal_with_fuel(pow10, 7);
            if width == 0 {
                assert(f as nat * pow10(6nat) >= pow10(6nat)) by (nonlinear_arith)
                    requires
                        f >= 1,
                ;
                assert(false);
            }
            lemma_strip_padded_one(f as nat, width as nat, k);
            assert(strip_trailing_zeros(dec_digits_padded(frac as nat, 6)) == strip_trailing_zeros(
                dec_digits_padded(f as nat, width as nat),
            ));
        }
        let ghost before = s@;
        push_u64_padded(&mut s, f, width);
        proof {
            lemma_no_trailing_zero(f as nat, width as nat);
            assert(strip_trailing_zeros(dec_digits_padded(f as nat, width as nat)) == dec_digits_padded(
                f as nat,
                width as nat,
            ));
            assert(s@ =~= fixed_micro_chars(v as int));
        }
    } else {
        proof {
            assert(s@ =~= fixed_micro_chars(v as int));
        }
    }
    s
}

/// A padded rendering of a value that does not end in zero has no
/// trailing zero to strip.
proof fn lemma_no_trailing_zero(n: nat, width: nat)
    requires
        n % 10 != 0,
        width >= 1,
    ensures
        strip_trailing_zeros(dec_digits_padded(n, width)) == dec_digits_padded(n, width),
{
    assert(dec_digits_padded(n, width).last() == digit_char((n % 10) as int));
    assert(digit_char((n % 10) as int) != '0');
}

} // verus!
