//! Textual rendering of the fixed-point scalar: a decimal numeral whose
//! fraction keeps no trailing zeros, so that the text parses back to the
//! same scalar.

use vstd::prelude::*;
use crate::scalar::{iabs, SCALE};

verus! {

/// The decimal digit character for one digit value.
pub open spec fn digit_char(d: nat) -> char {
    if d == 0 {
        '0'
    } else if d == 1 {
        '1'
    } else if d == 2 {
        '2'
    } else if d == 3 {
        '3'
    } else if d == 4 {
        '4'
    } else if d == 5 {
        '5'
    } else if d == 6 {
        '6'
    } else if d == 7 {
        '7'
    } else if d == 8 {
        '8'
    } else {
        '9'
    }
}

/// The decimal numeral of a natural number, most significant digit first.
pub open spec fn dec_str(n: nat) -> Seq<char>
    decreases n,
{
    if n < 10 {
        seq![digit_char(n)]
    } else {
        dec_str(n / 10) + seq![digit_char(n % 10)]
    }
}

/// The low `k` decimal digits of a natural number, zero padded to exactly
/// `k` characters, most significant first.
pub open spec fn pad_str(n: nat, k: nat) -> Seq<char>
    decreases k,
{
    if k == 0 {
        Seq::empty()
    } else {
        pad_str(n / 10, (k - 1) as nat) + seq![digit_char(n % 10)]
    }
}

/// The sequence with its trailing `'0'` characters removed.
pub open spec fn trim_zeros(s: Seq<char>) -> Seq<char>
    decreases s.len(),
{
    if s.len() == 0 {
        s
    } else if s.last() == '0' {
        trim_zeros(s.drop_last())
    } else {
        s
    }
}

/// The rendering of a raw scalar value: an optional minus sign, the whole
/// units, and, when the value is no whole number of units, a point and the
/// fraction's digits with trailing zeros dropped.
pub open spec fn fixed_str(v: int) -> Seq<char> {
    let m = iabs(v) as nat;
    let sign: Seq<char> = if v < 0 {
        seq!['-']
    } else {
        Seq::empty()
    };
    let whole = dec_str(m / (SCALE as nat));
    let frac = m % (SCALE as nat);
    if frac == 0 {
        sign + whole
    } else {
        sign + whole + seq!['.'] + trim_zeros(pad_str(frac, 6))
    }
}

/// Powers of ten.
pub open spec fn pow10(k: nat) -> nat
    decreases k,
{
    if k == 0 {
        1
    } else {
        10 * pow10((k - 1) as nat)
    }
}

fn digit_str(d: u64) -> (s: &'static str)
    requires
        d < 10,
    ensures
        s@ == seq![digit_char(d as nat)],
{
    if d == 0 {
        proof {
            reveal_strlit("0");
            assert("0"@ =~= seq![digit_char(0 as nat)]);
        }
        "0"
    } else if d == 1 {
        proof {
            reveal_strlit("1");
            assert("1"@ =~= seq![digit_char(1 as nat)]);
        }
        "1"
    } else if d == 2 {
        proof {
            reveal_strlit("2");
            assert("2"@ =~= seq![digit_char(2 as nat)]);
        }
        "2"
    } else if d == 3 {
        proof {
            reveal_strlit("3");
            assert("3"@ =~= seq![digit_char(3 as nat)]);
        }
        "3"
    } else if d == 4 {
        proof {
            reveal_strlit("4");
            assert("4"@ =~= seq![digit_char(4 as nat)]);
        }
        "4"
    } else if d == 5 {
        proof {
            reveal_strlit("5");
            assert("5"@ =~= seq![digit_char(5 as nat)]);
        }
        "5"
    } else if d == 6 {
        proof {
            reveal_strlit("6");
            assert("6"@ =~= seq![digit_char(6 as nat)]);
        }
        "6"
    } else if d == 7 {
        proof {
            reveal_strlit("7");
            assert("7"@ =~= seq![digit_char(7 as nat)]);
        }
        "7"
    } else if d == 8 {
        proof {
            reveal_strlit("8");
            assert("8"@ =~= seq![digit_char(8 as nat)]);
        }
        "8"
    } else {
        proof {
            reveal_strlit("9");
            assert("9"@ =~= seq![digit_char(9 as nat)]);
        }
        "9"
    }
}

fn push_dec(n: u64, out: &mut String)
    ensures
        final(out)@ == old(out)@ + dec_str(n as nat),
    decreases n,
{
    if n < 10 {
        let s = digit_str(n);
        out.append(s);
        proof {
            assert(out@ =~= old(out)@ + dec_str(n as nat));
        }
    } else {
        proof {
            assert(n / 10 < n) by (nonlinear_arith)
                requires
                    n >= 10,
            ;
        }
        push_dec(n / 10, out);
        let s = digit_str(n % 10);
        out.append(s);
        proof {
            assert(out@ =~= old(out)@ + dec_str(n as nat));
        }
    }
}

fn push_pad(n: u64, k: u64, out: &mut String)
    ensures
        final(out)@ == old(out)@ + pad_str(n as nat, k as nat),
    decreases k,
{
    if k == 0 {
        proof {
            assert(out@ =~= old(out)@ + pad_str(n as nat, 0));
        }
    } else {
        push_pad(n / 10, k - 1, out);
        let s = digit_str(n % 10);
        out.append(s);
        proof {
            assert(out@ =~= old(out)@ + pad_str(n as nat, k as nat));
        }
    }
}

/// Dropping a trailing zero digit does not change the trimmed numeral.
proof fn lemma_trim_drop_zero(n: nat, k: nat)
    requires
        k >= 1,
        n % 10 == 0,
    ensures
        trim_zeros(pad_str(n, k)) == trim_zeros(pad_str(n / 10, (k - 1) as nat)),
{
    let s = pad_str(n / 10, (k - 1) as nat);
    assert(pad_str(n, k) == s + seq![digit_char(n % 10)]);
    assert((s + seq!['0']).last() == '0');
    assert((s + seq!['0']).drop_last() =~= s);
}

/// The first few powers of ten, written out.
proof fn lemma_pow10_small()
    ensures
        pow10(0) == 1,
        pow10(1) == 10,
        pow10(2) == 100,
        pow10(3) == 1000,
        pow10(4) == 10000,
        pow10(5) == 100000,
        pow10(6) == 1_000_000,
{
    assert(pow10(0) == 1);
    assert(pow10(1) == 10);
    assert(pow10(2) == 100);
    assert(pow10(3) == 1000);
    assert(pow10(4) == 10000);
    assert(pow10(5) == 100000);
    assert(pow10(6) == 1_000_000);
}

fn push_fraction(frac: u64, out: &mut String)
    requires
        0 < frac < 1_000_000,
    ensures
        final(out)@ == old(out)@ + trim_zeros(pad_str(frac as nat, 6)),
{
    let mut f = frac;
    let mut k: u64 = 6;
    proof {
        lemma_pow10_small();
    }
    while f % 10 == 0
        invariant
            0 < f,
            1 <= k <= 6,
            f < pow10(k as nat),
            trim_zeros(pad_str(f as nat, k as nat)) == trim_zeros(pad_str(frac as nat, 6)),
        decreases f,
    {
        proof {
            vstd::arithmetic::div_mod::lemma_fundamental_div_mod(f as int, 10);
            assert(f >= 10);
            if k == 1 {
                lemma_pow10_small();
                assert(false);
            }
            lemma_trim_drop_zero(f as nat, k as nat);
            let p: int = pow10((k - 1) as nat) as int;
            assert(pow10(k as nat) == 10 * pow10((k - 1) as nat));
            assert(10 * (f as int / 10) < 10 * p);
            assert(f as int / 10 < p);
        }
        f = f / 10;
        k = k - 1;
    }
    proof {
        vstd::arithmetic::div_mod::lemma_mod_bound(f as int, 10);
        let s = pad_str((f / 10) as nat, (k - 1) as nat);
        assert(pad_str(f as nat, k as nat) == s + seq![digit_char((f % 10) as nat)]);
        assert((s + seq![digit_char((f % 10) as nat)]).last() == digit_char((f % 10) as nat));
        assert(digit_char((f % 10) as nat) != '0');
        assert(trim_zeros(pad_str(f as nat, k as nat)) == pad_str(f as nat, k as nat));
    }
    push_pad(f, k, out);
}

/// The rendering of a raw scalar value as an owned string.
pub(crate) fn fixed_to_string(raw: i64) -> (r: String)
    ensures
        r@ == fixed_str(raw as int),
{
    let mut s = String::new();
    proof {
        assert(s@ =~= Seq::<char>::empty());
    }
    if raw < 0 {
        proof {
            reveal_strlit("-");
        }
        s.append("-");
        proof {
            assert("-"@ =~= seq!['-']);
        }
    }
    let m = crate::scalar::abs_u64(raw);
    let whole = m / 1_000_000;
    let frac = m % 1_000_000;
    push_dec(whole, &mut s);
    if frac != 0 {
        proof {
            reveal_strlit(".");
        }
        s.append(".");
        proof {
            assert("."@ =~= seq!['.']);
        }
        push_fraction(frac, &mut s);
    }
    proof {
        assert(s@ =~= fixed_str(raw as int));
    }
    s
}

} // verus!
