//! Decimal and hexadecimal numerals.

use vstd::prelude::*;

verus! {

/// The digit character of `d` in base 16 (lower case), for `0 <= d < 16`.
pub open spec fn digit_char(d: int) -> char {
    if d == 0 {
        '0'
    } else if d == 1 {
        '1'
    } else if d == 2 {
        '2'
    } else if d == 3 {
        '3'
    } else if d == 4 {
        '4'
    } else if d == 5 {
        '5'
    } else if d == 6 {
        '6'
    } else if d == 7 {
        '7'
    } else if d == 8 {
        '8'
    } else if d == 9 {
        '9'
    } else if d == 10 {
        'a'
    } else if d == 11 {
        'b'
    } else if d == 12 {
        'c'
    } else if d == 13 {
        'd'
    } else if d == 14 {
        'e'
    } else {
        'f'
    }
}

/// The digit character of `d`, upper case where `upper` is set.
pub open spec fn cased_digit(d: int, upper: bool) -> char {
    if !upper || d < 10 {
        digit_char(d)
    } else if d == 10 {
        'A'
    } else if d == 11 {
        'B'
    } else if d == 12 {
        'C'
    } else if d == 13 {
        'D'
    } else if d == 14 {
        'E'
    } else {
        'F'
    }
}

/// The numeral of `n` in base `b`, without leading zeros (`"0"` for 0), its
/// letters upper case where `upper` is set.
pub open spec fn cased_numeral(n: nat, b: nat, upper: bool) -> Seq<char>
    decreases n
    via numeral_decreases
{
    if b < 2 || n < b {
        seq![cased_digit(n as int, upper)]
    } else {
        cased_numeral(n / b, b, upper).push(cased_digit((n % b) as int, upper))
    }
}

/// The numeral of `n` in base `b`, lower case.
pub open spec fn numeral(n: nat, b: nat) -> Seq<char> {
    cased_numeral(n, b, false)
}

#[via_fn]
proof fn numeral_decreases(n: nat, b: nat, upper: bool) {
    if !(b < 2 || n < b) {
        assert(n / b < n) by (nonlinear_arith)
            requires
                b >= 2,
                n >= b,
        ;
    }
}

/// The numeral of `n` in base `b`, padded with zeros to at least `w` digits.
pub open spec fn padded_numeral(n: nat, b: nat, w: nat) -> Seq<char> {
    cased_padded_numeral(n, b, w, false)
}

/// `padded_numeral`, its letters upper case where `upper` is set.
pub open spec fn cased_padded_numeral(n: nat, b: nat, w: nat, upper: bool) -> Seq<char> {
    let s = cased_numeral(n, b, upper);
    if s.len() >= w {
        s
    } else {
        Seq::new((w - s.len()) as nat, |i: int| '0') + s
    }
}

/// The decimal numeral of a signed value.
pub open spec fn signed_decimal(n: int) -> Seq<char> {
    if n < 0 {
        seq!['-'] + numeral((-n) as nat, 10)
    } else {
        numeral(n as nat, 10)
    }
}

/// The one-character string of digit `d`.
fn digit_str(d: u64, upper: bool) -> (r: &'static str)
    requires
        d < 16,
    ensures
        r@ == seq![cased_digit(d as int, upper)],
{
    if upper && d >= 10 {
        proof {
            reveal_strlit("A");
            reveal_strlit("B");
            reveal_strlit("C");
            reveal_strlit("D");
            reveal_strlit("E");
            reveal_strlit("F");
        }
        let r = if d == 10 {
            "A"
        } else if d == 11 {
            "B"
        } else if d == 12 {
            "C"
        } else if d == 13 {
            "D"
        } else if d == 14 {
            "E"
        } else {
            "F"
        };
        assert(r@ =~= seq![cased_digit(d as int, upper)]);
        return r;
    }
    proof {
        reveal_strlit("0");
        reveal_strlit("1");
        reveal_strlit("2");
        reveal_strlit("3");
        reveal_strlit("4");
        reveal_strlit("5");
        reveal_strlit("6");
        reveal_strlit("7");
        reveal_strlit("8");
        reveal_strlit("9");
        reveal_strlit("a");
        reveal_strlit("b");
        reveal_strlit("c");
        reveal_strlit("d");
        reveal_strlit("e");
        reveal_strlit("f");
    }
    let r = if d == 0 {
        "0"
    } else if d == 1 {
        "1"
    } else if d == 2 {
        "2"
    } else if d == 3 {
        "3"
    } else if d == 4 {
        "4"
    } else if d == 5 {
        "5"
    } else if d == 6 {
        "6"
    } else if d == 7 {
        "7"
    } else if d == 8 {
        "8"
    } else if d == 9 {
        "9"
    } else if d == 10 {
        "a"
    } else if d == 11 {
        "b"
    } else if d == 12 {
        "c"
    } else if d == 13 {
        "d"
    } else if d == 14 {
        "e"
    } else {
        "f"
    };
    assert(r@ =~= seq![cased_digit(d as int, upper)]);
    r
}

/// The numeral of `n` in base `b` (10 or 16).
pub fn numeral_string(n: u64, b: u64) -> (r: String)
    requires
        b == 10 || b == 16,
    ensures
        r@ == numeral(n as nat, b as nat),
{
    cased_numeral_string(n, b, false)
}

/// The numeral of `n` in base `b` (10 or 16), upper case where `upper` is set.
pub fn cased_numeral_string(n: u64, b: u64, upper: bool) -> (r: String)
    requires
        b == 10 || b == 16,
    ensures
        r@ == cased_numeral(n as nat, b as nat, upper),
{
    let mut rest = n;
    let mut acc = String::new();
    loop
        invariant
            b == 10 || b == 16,
            cased_numeral(n as nat, b as nat, upper) == cased_numeral(rest as nat, b as nat, upper) + acc@,
        decreases rest,
    {
        let d = digit_str(rest % b, upper);
        let mut s = String::from_str(d);
        s.append(acc.as_str());
        proof {
            if rest < b {
                vstd::arithmetic::div_mod::lemma_small_mod(rest as nat, b as nat);
                assert(cased_numeral(rest as nat, b as nat, upper) =~= seq![cased_digit(rest as int, upper)]);
                assert(s@ =~= seq![cased_digit(rest as int, upper)] + acc@);
            } else {
                assert(cased_numeral(rest as nat, b as nat, upper) == cased_numeral((rest / b) as nat, b as nat, upper).push(
                    cased_digit((rest % b) as int, upper),
                ));
                assert(cased_numeral(rest as nat, b as nat, upper) + acc@ =~= cased_numeral((rest / b) as nat, b as nat, upper) + s@);
            }
        }
        if rest < b {
            assert(cased_numeral(n as nat, b as nat, upper) =~= s@);
            return s;
        }
        acc = s;
        rest = rest / b;
    }
}

/// The numeral of `n` in base `b`, zero-padded to `w` digits.
pub fn padded_numeral_string(n: u64, b: u64, w: usize) -> (r: String)
    requires
        b == 10 || b == 16,
    ensures
        r@ == padded_numeral(n as nat, b as nat, w as nat),
{
    cased_padded_numeral_string(n, b, w, false)
}

/// The numeral of `n` in base `b`, zero-padded to `w` digits, upper case
/// where `upper` is set.
pub fn cased_padded_numeral_string(n: u64, b: u64, w: usize, upper: bool) -> (r: String)
    requires
        b == 10 || b == 16,
    ensures
        r@ == cased_padded_numeral(n as nat, b as nat, w as nat, upper),
{
    let s = cased_numeral_string(n, b, upper);
    let len = s.as_str().unicode_len();
    if len >= w {
        return s;
    }
    let mut r = String::new();
    let mut i: usize = 0;
    while i < w - len
        invariant
            len == s@.len(),
            len < w,
            i <= w - len,
            r@ == Seq::new(i as nat, |k: int| '0'),
        decreases w - len - i,
    {
        r.append("0");
        proof {
            reveal_strlit("0");
        }
        assert(r@ =~= Seq::new((i + 1) as nat, |k: int| '0'));
        i = i + 1;
    }
    r.append(s.as_str());
    r
}

/// The decimal numeral of a signed value.
pub fn signed_decimal_string(n: i64) -> (r: String)
    ensures
        r@ == signed_decimal(n as int),
{
    if n < 0 {
        let m: u64 = if n == i64::MIN { 0x8000_0000_0000_0000 } else { (-n) as u64 };
        let mut r = String::from_str("-");
        r.append(numeral_string(m, 10).as_str());
        proof {
            reveal_strlit("-");
        }
        r
    } else {
        numeral_string(n as u64, 10)
    }
}

} // verus!
