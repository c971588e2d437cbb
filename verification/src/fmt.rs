//! Decimal rendering of the fixed-point quantities the interface
//! prints: plain counters, and thousandths shown with two or three
//! decimal places.

use vstd::prelude::*;
use crate::model::STAT_BOUND;

verus! {

pub open spec fn digit_char(d: int) -> char {
    if d == 0 {
        '0'
    } else if d == 1 {
        '1'
    } else if d == 2 {
        '2'
    } else if d == 3 {
        '3'
    } else if d == 4 {
        '4'
    } else if d == 5 {
        '5'
    } else if d == 6 {
        '6'
    } else if d == 7 {
        '7'
    } else if d == 8 {
        '8'
    } else {
        '9'
    }
}

/// The decimal digits of a nonnegative number, most significant first.
pub open spec fn dec_digits(n: int) -> Seq<char>
    decreases n,
{
    if n < 10 {
        seq![digit_char(n)]
    } else {
        dec_digits(n / 10) + seq![digit_char(n % 10)]
    }
}

/// A value in thousandths rendered with two decimal places, the last
/// thousandth rounded half up.
pub open spec fn fixed2(v: int) -> Seq<char> {
    let c = (v + 5) / 10;
    dec_digits(c / 100) + seq!['.', digit_char(c / 10 % 10), digit_char(c % 10)]
}

/// A value in thousandths rendered with three decimal places.
pub open spec fn fixed3(v: int) -> Seq<char> {
    dec_digits(v / 1000) + seq![
        '.',
        digit_char(v / 100 % 10),
        digit_char(v / 10 % 10),
        digit_char(v % 10),
    ]
}

pub open spec fn pow10(k: int) -> int
    decreases k,
{
    if k <= 0 {
        1
    } else {
        10 * pow10(k - 1)
    }
}

pub proof fn lemma_pow10_pos(k: int)
    ensures
        pow10(k) >= 1,
    decreases k,
{
    if k > 0 {
        lemma_pow10_pos(k - 1);
    }
}

/// A number below the `k`-th power of ten has at most `k` digits.
pub proof fn lemma_dec_digits_len(n: int, k: int)
    requires
        0 <= n,
        1 <= k,
        n < pow10(k),
    ensures
        1 <= dec_digits(n).len() <= k,
    decreases k,
{
    if n >= 10 {
        lemma_pow10_pos(k - 1);
        assert(n / 10 < pow10(k - 1)) by (nonlinear_arith)
            requires
                0 <= n,
                n < 10 * pow10(k - 1),
                pow10(k - 1) >= 1,
        ;
        lemma_dec_digits_len(n / 10, k - 1);
    }
}

/// A stat-sized value prints to at most fourteen characters with two
/// decimal places.
pub proof fn lemma_fixed2_len(v: int)
    requires
        0 <= v <= STAT_BOUND,
    ensures
        4 <= fixed2(v).len() <= 14,
{
    reveal_with_fuel(pow10, 13);
    lemma_dec_digits_len((v + 5) / 10 / 100, 11);
}

/// A stat-sized value prints to at most fourteen characters with three
/// decimal places.
pub proof fn lemma_fixed3_len(v: int)
    requires
        0 <= v <= STAT_BOUND,
    ensures
        5 <= fixed3(v).len() <= 15,
{
    reveal_with_fuel(pow10, 13);
    lemma_dec_digits_len(v / 1000, 11);
}

/// No value of a machine word prints to more than twenty digits.
pub proof fn lemma_dec_digits_len_u64(n: int)
    requires
        0 <= n <= u64::MAX,
    ensures
        1 <= dec_digits(n).len() <= 20,
{
    reveal_with_fuel(pow10, 22);
    lemma_dec_digits_len(n, 20);
}

/// One decimal digit as a string slice.
fn digit_str(d: u64) -> (r: &'static str)
    requires
        d < 10,
    ensures
        r@ == seq![digit_char(d as int)],
{
    proof {
        reveal_strlit("0");
        reveal_strlit("1");
        reveal_strlit("2");
        reveal_strlit("3");
        reveal_strlit("4");
        reveal_strlit("5");
        reveal_strlit("6");
        reveal_strlit("7");
        reveal_strlit("8");
        reveal_strlit("9");
    }
    if d == 0 {
        "0"
    } else if d == 1 {
        "1"
    } else if d == 2 {
        "2"
    } else if d == 3 {
        "3"
    } else if d == 4 {
        "4"
    } else if d == 5 {
        "5"
    } else if d == 6 {
        "6"
    } else if d == 7 {
        "7"
    } else if d == 8 {
        "8"
    } else {
        "9"
    }
}

/// A nonnegative counter in decimal.
pub fn u64_string(n: u64) -> (r: String)
    ensures
        r@ == dec_digits(n as int),
    decreases n,
{
    if n < 10 {
        String::from_str(digit_str(n))
    } else {
        let head = u64_string(n / 10);
        head.concat(digit_str(n % 10))
    }
}

/// A value in thousandths with two decimal places.
pub fn milli_2(v: u64) -> (r: String)
    requires
        v <= STAT_BOUND,
    ensures
        r@ == fixed2(v as int),
{
    proof {
        reveal_strlit(".");
    }
    let c = (v + 5) / 10;
    let mut s = u64_string(c / 100);
    s.append(".");
    s.append(digit_str(c / 10 % 10));
    s.append(digit_str(c % 10));
    proof {
        assert(s@ =~= fixed2(v as int));
    }
    s
}

/// A value in thousandths with three decimal places.
pub fn milli_3(v: u64) -> (r: String)
    requires
        v <= STAT_BOUND,
    ensures
        r@ == fixed3(v as int),
{
    proof {
        reveal_strlit(".");
    }
    let mut s = u64_string(v / 1000);
    s.append(".");
    s.append(digit_str(v / 100 % 10));
    s.append(digit_str(v / 10 % 10));
    s.append(digit_str(v % 10));
    proof {
        assert(s@ =~= fixed3(v as int));
    }
    s
}

/// A label followed by a rendered number.
pub fn labelled(label: &str, number: String) -> (r: String)
    ensures
        r@ == label@ + number@,
{
    let mut s = String::from_str(label);
    s.append(number.as_str());
    s
}

} // verus!
