//! Decimal numbers and padding, the building blocks of every text the
//! widget shows.

use vstd::prelude::*;

verus! {

/// The character of the decimal digit `d` (for `d < 10`).
pub open spec fn digit_char(d: nat) -> char {
    if d == 0 {
        '0'
    } else if d == 1 {
        '1'
    } else if d == 2 {
        '2'
    } else if d == 3 {
        '3'
    } else if d == 4 {
        '4'
    } else if d == 5 {
        '5'
    } else if d == 6 {
        '6'
    } else if d == 7 {
        '7'
    } else if d == 8 {
        '8'
    } else {
        '9'
    }
}

/// Decimal representation of `n`, most significant digit first, with no
/// leading zero (so `0` is the single character `'0'`).
pub open spec fn decimal(n: nat) -> Seq<char>
    decreases n,
{
    if n < 10 {
        seq![digit_char(n)]
    } else {
        decimal(n / 10).push(digit_char(n % 10))
    }
}

/// `s` with `fill` put in front of it until it is `width` characters long;
/// a longer `s` is left as it is.
pub open spec fn pad_left(s: Seq<char>, width: nat, fill: char) -> Seq<char> {
    if s.len() >= width {
        s
    } else {
        Seq::new((width - s.len()) as nat, |_i: int| fill) + s
    }
}

/// `s` with `fill` put after it until it is `width` characters long;
/// a longer `s` is left as it is.
pub open spec fn pad_right(s: Seq<char>, width: nat, fill: char) -> Seq<char> {
    if s.len() >= width {
        s
    } else {
        s + Seq::new((width - s.len()) as nat, |_i: int| fill)
    }
}

/// `n` in decimal, zero-padded on the left to at least `width` digits.
pub open spec fn zero_padded(n: nat, width: nat) -> Seq<char> {
    pad_left(decimal(n), width, '0')
}

/// The value of a decimal digit character (the digit characters `'0'` to
/// `'9'` only).
pub open spec fn digit_value(c: char) -> int {
    if c == '0' {
        0
    } else if c == '1' {
        1
    } else if c == '2' {
        2
    } else if c == '3' {
        3
    } else if c == '4' {
        4
    } else if c == '5' {
        5
    } else if c == '6' {
        6
    } else if c == '7' {
        7
    } else if c == '8' {
        8
    } else {
        9
    }
}

/// The number that a string of decimal digits reads as, most significant
/// digit first (the empty string reads as 0).
pub open spec fn decimal_value(s: Seq<char>) -> int
    decreases s.len(),
{
    if s.len() == 0 {
        0
    } else {
        decimal_value(s.drop_last()) * 10 + digit_value(s.last())
    }
}

/// Writing `n` in decimal and reading it back gives `n`.
pub proof fn lemma_decimal_reads_back(n: nat)
    ensures
        decimal_value(decimal(n)) == n,
        decimal(n).len() >= 1,
        n < 10 ==> decimal(n).len() == 1,
        n < 100 ==> decimal(n).len() <= 2,
    decreases n,
{
    lemma_digit_reads_back((n % 10) as nat);
    if n >= 10 {
        lemma_decimal_reads_back(n / 10);
        let d = decimal(n);
        assert(d == decimal(n / 10).push(digit_char(n % 10)));
        assert(d.drop_last() =~= decimal(n / 10));
        assert(d.last() == digit_char(n % 10));
        assert(decimal_value(d) == decimal_value(d.drop_last()) * 10 + digit_value(d.last()));
    } else {
        let d = decimal(n);
        assert(d == seq![digit_char(n)]);
        assert(d.drop_last() =~= Seq::<char>::empty());
        assert(decimal_value(d) == decimal_value(d.drop_last()) * 10 + digit_value(d.last()));
    }
}

proof fn lemma_digit_reads_back(d: nat)
    requires
        d < 10,
    ensures
        digit_value(digit_char(d)) == d,
{
}

proof fn lemma_leading_zero(s: Seq<char>)
    ensures
        decimal_value(seq!['0'] + s) == decimal_value(s),
    decreases s.len(),
{
    let t = seq!['0'] + s;
    if s.len() == 0 {
        assert(t.drop_last() =~= Seq::<char>::empty());
        assert(t.last() == '0');
        assert(decimal_value(t) == decimal_value(t.drop_last()) * 10 + digit_value(t.last()));
    } else {
        lemma_leading_zero(s.drop_last());
        assert(t.drop_last() =~= seq!['0'] + s.drop_last());
        assert(t.last() == s.last());
        assert(decimal_value(t) == decimal_value(t.drop_last()) * 10 + digit_value(t.last()));
        assert(decimal_value(s) == decimal_value(s.drop_last()) * 10 + digit_value(s.last()));
    }
}

proof fn lemma_leading_zeros(k: nat, s: Seq<char>)
    ensures
        decimal_value(Seq::new(k, |_i: int| '0') + s) == decimal_value(s),
    decreases k,
{
    if k > 0 {
        let rest = Seq::new((k - 1) as nat, |_i: int| '0') + s;
        assert(Seq::new(k, |_i: int| '0') + s =~= seq!['0'] + rest);
        lemma_leading_zero(rest);
        lemma_leading_zeros((k - 1) as nat, s);
    } else {
        assert(Seq::new(k, |_i: int| '0') + s =~= s);
    }
}

/// Zero-padding does not change the number read: `n` written with at least
/// `width` digits reads back as `n`, and is `width` long when `n` has no
/// more digits than that (two digits for `n < 100`).
pub proof fn lemma_zero_padded_reads_back(n: nat, width: nat)
    ensures
        decimal_value(zero_padded(n, width)) == n,
        zero_padded(n, width).len() >= width,
        width >= 2 && n < 100 ==> zero_padded(n, width).len() == width,
{
    lemma_decimal_reads_back(n);
    let d = decimal(n);
    if d.len() < width {
        lemma_leading_zeros((width - d.len()) as nat, d);
    }
}

fn digit_text(d: u128) -> (s: &'static str)
    requires
        d < 10,
    ensures
        s@ == seq![digit_char(d as nat)],
{
    if d == 0 {
        proof { reveal_strlit("0"); }
        "0"
    } else if d == 1 {
        proof { reveal_strlit("1"); }
        "1"
    } else if d == 2 {
        proof { reveal_strlit("2"); }
        "2"
    } else if d == 3 {
        proof { reveal_strlit("3"); }
        "3"
    } else if d == 4 {
        proof { reveal_strlit("4"); }
        "4"
    } else if d == 5 {
        proof { reveal_strlit("5"); }
        "5"
    } else if d == 6 {
        proof { reveal_strlit("6"); }
        "6"
    } else if d == 7 {
        proof { reveal_strlit("7"); }
        "7"
    } else if d == 8 {
        proof { reveal_strlit("8"); }
        "8"
    } else {
        proof { reveal_strlit("9"); }
        "9"
    }
}

/// Decimal text of `n`.
pub fn decimal_text(n: u128) -> (s: String)
    ensures
        s@ == decimal(n as nat),
    decreases n,
{
    if n < 10 {
        String::from_str(digit_text(n))
    } else {
        let mut s = decimal_text(n / 10);
        s.append(digit_text(n % 10));
        s
    }
}

/// `s` padded on the left with the single character of `fill` up to `width`
/// characters.
pub fn pad_left_text(s: &str, width: usize, fill: &str) -> (r: String)
    requires
        fill@.len() == 1,
    ensures
        r@ == pad_left(s@, width as nat, fill@[0]),
{
    let len = s.unicode_len();
    let mut r = String::new();
    if len < width {
        let mut k: usize = len;
        while k < width
            invariant
                len <= k <= width,
                fill@.len() == 1,
                r@ =~= Seq::new((k - len) as nat, |_i: int| fill@[0]),
            decreases width - k,
        {
            r.append(fill);
            k = k + 1;
        }
    }
    r.append(s);
    r
}

/// `s` padded on the right with the single character of `fill` up to
/// `width` characters.
pub fn pad_right_text(s: &str, width: usize, fill: &str) -> (r: String)
    requires
        fill@.len() == 1,
    ensures
        r@ == pad_right(s@, width as nat, fill@[0]),
{
    let len = s.unicode_len();
    let mut r = String::from_str(s);
    if len < width {
        let mut k: usize = len;
        while k < width
            invariant
                len <= k <= width,
                fill@.len() == 1,
                r@ =~= s@ + Seq::new((k - len) as nat, |_i: int| fill@[0]),
            decreases width - k,
        {
            r.append(fill);
            k = k + 1;
        }
    }
    r
}

/// `n` in decimal, zero-padded on the left to at least `width` digits.
pub fn zero_padded_text(n: u128, width: usize) -> (r: String)
    ensures
        r@ == zero_padded(n as nat, width as nat),
{
    let digits = decimal_text(n);
    proof { reveal_strlit("0"); }
    pad_left_text(digits.as_str(), width, "0")
}

} // verus!
