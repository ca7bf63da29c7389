//! Decimal rendering of integers and fixed-point values, and facts about
//! UTF-8 encoding of concatenated text.
use vstd::prelude::*;
use vstd::string::*;
use vstd::utf8::*;

verus! {

/// The character of the decimal digit `d` (for `d < 10`).
pub open spec fn digit_char(d: nat) -> char {
    seq!['0', '1', '2', '3', '4', '5', '6', '7', '8', '9'][d as int]
}

/// The decimal representation of `n`, without sign or leading zeros.
pub open spec fn decimal(n: nat) -> Seq<char>
    decreases n,
{
    if n < 10 {
        seq![digit_char(n)]
    } else {
        decimal(n / 10).push(digit_char(n % 10))
    }
}

fn digit_str(d: u64) -> (r: &'static str)
    requires
        d < 10,
    ensures
        r@ == seq![digit_char(d as nat)],
{
    proof {
        reveal_strlit("0");
        reveal_strlit("1");
        reveal_strlit("2");
        reveal_strlit("3");
        reveal_strlit("4");
        reveal_strlit("5");
        reveal_strlit("6");
        reveal_strlit("7");
        reveal_strlit("8");
        reveal_strlit("9");
    }
    let r = if d == 0 {
        "0"
    } else if d == 1 {
        "1"
    } else if d == 2 {
        "2"
    } else if d == 3 {
        "3"
    } else if d == 4 {
        "4"
    } else if d == 5 {
        "5"
    } else if d == 6 {
        "6"
    } else if d == 7 {
        "7"
    } else if d == 8 {
        "8"
    } else {
        "9"
    };
    assert(r@ =~= seq![digit_char(d as nat)]);
    r
}

/// Renders `n` in decimal.
pub fn decimal_string(n: u64) -> (r: String)
    ensures
        r@ == decimal(n as nat),
    decreases n,
{
    if n < 10 {
        String::from_str(digit_str(n))
    } else {
        let mut s = decimal_string(n / 10);
        s.append(digit_str(n % 10));
        assert(s@ =~= decimal(n as nat));
        s
    }
}

/// The digits after the decimal point of the fraction `f / 1000`
/// (`0 < f < 1000`), without trailing zeros.
pub open spec fn fraction_digits(f: nat) -> Seq<char> {
    if f % 100 == 0 {
        seq![digit_char(f / 100)]
    } else if f % 10 == 0 {
        seq![digit_char(f / 100), digit_char((f / 10) % 10)]
    } else {
        seq![digit_char(f / 100), digit_char((f / 10) % 10), digit_char(f % 10)]
    }
}

/// The shortest decimal text of the number `v / 1000`: a minus sign when it
/// is negative, the integer part, and the nonzero fraction digits after a
/// point (`1500` is `1.5`, `-900` is `-0.9`, `2000` is `2`).
pub open spec fn thousandths_text(v: int) -> Seq<char> {
    let a: nat = if v < 0 { (-v) as nat } else { v as nat };
    let sign: Seq<char> = if v < 0 { seq!['-'] } else { seq![] };
    let frac: Seq<char> = if a % 1000 == 0 { seq![] } else { seq!['.'] + fraction_digits(a % 1000) };
    sign + decimal(a / 1000) + frac
}

/// Renders the number `v / 1000` as `thousandths_text` describes.
pub fn thousandths_string(v: i32) -> (r: String)
    ensures
        r@ == thousandths_text(v as int),
{
    proof {
        reveal_strlit("-");
        reveal_strlit(".");
    }
    let a: u64 = if v < 0 { (-(v as i64)) as u64 } else { v as u64 };
    let mut s = if v < 0 { String::from_str("-") } else { String::new() };
    let whole = decimal_string(a / 1000);
    s.append(whole.as_str());
    let f: u64 = a % 1000;
    if f != 0 {
        s.append(".");
        s.append(digit_str(f / 100));
        if f % 100 != 0 {
            s.append(digit_str((f / 10) % 10));
            if f % 10 != 0 {
                s.append(digit_str(f % 10));
            }
        }
    }
    assert(s@ =~= thousandths_text(v as int));
    s
}

/// UTF-8 encoding distributes over concatenation.
pub proof fn lemma_encode_utf8_concat(a: Seq<char>, b: Seq<char>)
    ensures
        encode_utf8(a + b) == encode_utf8(a) + encode_utf8(b),
    decreases a.len(),
{
    if a.len() == 0 {
        assert(a + b =~= b);
    } else {
        assert((a + b).drop_first() =~= a.drop_first() + b);
        lemma_encode_utf8_concat(a.drop_first(), b);
        assert(encode_utf8(a + b) =~= encode_utf8(a) + encode_utf8(b));
    }
}

} // verus!
