//! Decimal text of unsigned integers, padded and fixed-point forms.
use vstd::prelude::*;

verus! {

/// The character of a decimal digit.
pub open spec fn digit_char(d: nat) -> char {
    if d == 0 {
        '0'
    } else if d == 1 {
        '1'
    } else if d == 2 {
        '2'
    } else if d == 3 {
        '3'
    } else if d == 4 {
        '4'
    } else if d == 5 {
        '5'
    } else if d == 6 {
        '6'
    } else if d == 7 {
        '7'
    } else if d == 8 {
        '8'
    } else {
        '9'
    }
}

/// Decimal digits of `n`, most significant first, without leading zeros.
pub open spec fn dec(n: nat) -> Seq<char>
    decreases n,
{
    if n < 10 {
        seq![digit_char(n)]
    } else {
        dec(n / 10).push(digit_char(n % 10))
    }
}

/// `s` preceded by as many copies of `c` as bring it to `width` characters.
pub open spec fn pad_with(c: char, s: Seq<char>, width: nat) -> Seq<char> {
    if s.len() < width {
        Seq::new((width - s.len()) as nat, |i: int| c) + s
    } else {
        s
    }
}

/// Fixed-point text of `hundredths / 100` with two decimals.
pub open spec fn fixed2(hundredths: nat) -> Seq<char> {
    dec(hundredths / 100) + seq!['.'] + pad_with('0', dec(hundredths % 100), 2)
}

/// A character among `0`..`9`.
pub open spec fn is_digit(c: char) -> bool {
    '0' <= c <= '9'
}

/// Decimal text is made of digits, and a number below 10, 100, 1000, 10000 has at
/// most 1, 2, 3, 4 of them.
pub proof fn lemma_dec_shape(n: nat)
    ensures
        forall|i: int| 0 <= i < dec(n).len() ==> is_digit(#[trigger] dec(n)[i]),
        dec(n).len() >= 1,
        n < 10 ==> dec(n).len() == 1,
        n < 100 ==> dec(n).len() <= 2,
        n < 1000 ==> dec(n).len() <= 3,
        n < 10000 ==> dec(n).len() <= 4,
    decreases n,
{
    if n >= 10 {
        lemma_dec_shape(n / 10);
        let d = dec(n / 10);
        assert forall|i: int| 0 <= i < dec(n).len() implies is_digit(#[trigger] dec(n)[i]) by {
            if i < d.len() {
                assert(dec(n)[i] == d[i]);
            }
        }
    }
}

/// Padding to `width` with zeros keeps the text made of digits, and a text no
/// longer than `width` comes out exactly `width` long.
pub proof fn lemma_pad_digits(s: Seq<char>, width: nat)
    requires
        forall|i: int| 0 <= i < s.len() ==> is_digit(#[trigger] s[i]),
        s.len() <= width,
    ensures
        pad_with('0', s, width).len() == width,
        forall|i: int| 0 <= i < width ==> is_digit(#[trigger] pad_with('0', s, width)[i]),
{
    let p = pad_with('0', s, width);
    if s.len() < width {
        let z = Seq::new((width - s.len()) as nat, |i: int| '0');
        assert forall|i: int| 0 <= i < width implies is_digit(#[trigger] p[i]) by {
            if i >= z.len() {
                assert(p[i] == s[i - z.len()]);
            }
        }
    }
}

fn digit_text(d: u64) -> (r: String)
    requires
        d < 10,
    ensures
        r@ == seq![digit_char(d as nat)],
{
    proof {
        reveal_strlit("0");
        reveal_strlit("1");
        reveal_strlit("2");
        reveal_strlit("3");
        reveal_strlit("4");
        reveal_strlit("5");
        reveal_strlit("6");
        reveal_strlit("7");
        reveal_strlit("8");
        reveal_strlit("9");
    }
    let s = if d == 0 {
        "0"
    } else if d == 1 {
        "1"
    } else if d == 2 {
        "2"
    } else if d == 3 {
        "3"
    } else if d == 4 {
        "4"
    } else if d == 5 {
        "5"
    } else if d == 6 {
        "6"
    } else if d == 7 {
        "7"
    } else if d == 8 {
        "8"
    } else {
        "9"
    };
    let r = String::from_str(s);
    assert(r@ =~= seq![digit_char(d as nat)]);
    r
}

/// Decimal text of `n`.
pub fn decimal(n: u64) -> (r: String)
    ensures
        r@ == dec(n as nat),
    decreases n,
{
    if n < 10 {
        digit_text(n)
    } else {
        let mut s = decimal(n / 10);
        let d = digit_text(n % 10);
        s.append(d.as_str());
        assert(s@ =~= dec(n as nat));
        s
    }
}

/// `s` left-padded with the one character of `fill` to at least `width` characters.
pub fn pad(fill: &str, s: String, width: usize) -> (r: String)
    requires
        fill@.len() == 1,
    ensures
        r@ == pad_with(fill@[0], s@, width as nat),
{
    let ghost c = fill@[0];
    let n = s.unicode_len();
    if n >= width {
        return s;
    }
    let mut p = String::new();
    let mut i: usize = 0;
    while i < width - n
        invariant
            n < width,
            i <= width - n,
            fill@ == seq![c],
            p@ == Seq::new(i as nat, |k: int| c),
        decreases width - n - i,
    {
        p.append(fill);
        i = i + 1;
        assert(p@ =~= Seq::new(i as nat, |k: int| c));
    }
    p.append(s.as_str());
    assert(p@ =~= pad_with(c, s@, width as nat));
    p
}

/// Zero-padded decimal text of `n`, at least `width` digits.
pub fn zero_padded(n: u64, width: usize) -> (r: String)
    ensures
        r@ == pad_with('0', dec(n as nat), width as nat),
{
    proof {
        reveal_strlit("0");
    }
    pad("0", decimal(n), width)
}

/// Text of `hundredths / 100` with two decimals, such as `12.05`.
pub fn fixed_two(hundredths: u64) -> (r: String)
    ensures
        r@ == fixed2(hundredths as nat),
{
    proof {
        reveal_strlit(".");
    }
    let mut s = decimal(hundredths / 100);
    s.append(".");
    let frac = zero_padded(hundredths % 100, 2);
    s.append(frac.as_str());
    assert(s@ =~= fixed2(hundredths as nat));
    s
}

} // verus!
