//! Label values: decimal numbers as text, and tuples of label values.

use vstd::prelude::*;
use vstd::string::StringExecFns;
use crate::family::label_seq;

verus! {

/// The character of a decimal digit.
pub open spec fn digit(d: nat) -> char {
    if d == 0 {
        '0'
    } else if d == 1 {
        '1'
    } else if d == 2 {
        '2'
    } else if d == 3 {
        '3'
    } else if d == 4 {
        '4'
    } else if d == 5 {
        '5'
    } else if d == 6 {
        '6'
    } else if d == 7 {
        '7'
    } else if d == 8 {
        '8'
    } else {
        '9'
    }
}

/// The decimal digits of a natural number, without leading zeros.
pub open spec fn decimal_nat(n: nat) -> Seq<char>
    decreases n,
{
    if n < 10 {
        seq![digit(n)]
    } else {
        decimal_nat(n / 10).push(digit(n % 10))
    }
}

/// An integer in decimal, with a minus sign in front of a negative one.
pub open spec fn decimal(i: int) -> Seq<char> {
    if i < 0 {
        seq!['-'] + decimal_nat((-i) as nat)
    } else {
        decimal_nat(i as nat)
    }
}

fn digit_str(d: u64) -> (s: &'static str)
    requires
        d < 10,
    ensures
        s@ == seq![digit(d as nat)],
{
    let s = if d == 0 {
        proof { reveal_strlit("0"); }
        "0"
    } else if d == 1 {
        proof { reveal_strlit("1"); }
        "1"
    } else if d == 2 {
        proof { reveal_strlit("2"); }
        "2"
    } else if d == 3 {
        proof { reveal_strlit("3"); }
        "3"
    } else if d == 4 {
        proof { reveal_strlit("4"); }
        "4"
    } else if d == 5 {
        proof { reveal_strlit("5"); }
        "5"
    } else if d == 6 {
        proof { reveal_strlit("6"); }
        "6"
    } else if d == 7 {
        proof { reveal_strlit("7"); }
        "7"
    } else if d == 8 {
        proof { reveal_strlit("8"); }
        "8"
    } else {
        proof { reveal_strlit("9"); }
        "9"
    };
    assert(s@ =~= seq![digit(d as nat)]);
    s
}

fn push_decimal(text: &mut String, n: u64)
    ensures
        final(text)@ == old(text)@ + decimal_nat(n as nat),
    decreases n,
{
    if n < 10 {
        text.append(digit_str(n));
    } else {
        push_decimal(text, n / 10);
        text.append(digit_str(n % 10));
        assert(text@ =~= old(text)@ + decimal_nat(n as nat));
    }
}

/// Writes an integer in decimal.
pub fn decimal_string(value: i64) -> (s: String)
    ensures
        s@ == decimal(value as int),
{
    let mut s = String::new();
    if value < 0 {
        proof { reveal_strlit("-"); }
        s.append("-");
        let magnitude: u64 = (-(value + 1)) as u64 + 1;
        push_decimal(&mut s, magnitude);
        assert(s@ =~= decimal(value as int));
    } else {
        push_decimal(&mut s, value as u64);
        assert(s@ =~= decimal(value as int));
    }
    s
}

/// The empty tuple of label values.
pub fn labels0<'a>() -> (v: Vec<&'a str>)
    ensures
        v@.len() == 0,
        label_seq(v@) == Seq::<Seq<char>>::empty(),
{
    let v: Vec<&'a str> = Vec::new();
    assert(label_seq(v@) =~= Seq::<Seq<char>>::empty());
    v
}

/// A tuple of one label value.
pub fn labels1<'a>(a: &'a str) -> (v: Vec<&'a str>)
    ensures
        v@.len() == 1,
        label_seq(v@) == seq![a@],
{
    let mut v: Vec<&'a str> = Vec::new();
    v.push(a);
    assert(label_seq(v@) =~= seq![a@]);
    v
}

/// A tuple of two label values.
pub fn labels2<'a>(a: &'a str, b: &'a str) -> (v: Vec<&'a str>)
    ensures
        v@.len() == 2,
        label_seq(v@) == seq![a@, b@],
{
    let mut v: Vec<&'a str> = Vec::new();
    v.push(a);
    v.push(b);
    assert(label_seq(v@) =~= seq![a@, b@]);
    v
}

/// A tuple of three label values.
pub fn labels3<'a>(a: &'a str, b: &'a str, c: &'a str) -> (v: Vec<&'a str>)
    ensures
        v@.len() == 3,
        label_seq(v@) == seq![a@, b@, c@],
{
    let mut v: Vec<&'a str> = Vec::new();
    v.push(a);
    v.push(b);
    v.push(c);
    assert(label_seq(v@) =~= seq![a@, b@, c@]);
    v
}

/// A tuple of four label values.
pub fn labels4<'a>(a: &'a str, b: &'a str, c: &'a str, d: &'a str) -> (v: Vec<&'a str>)
    ensures
        v@.len() == 4,
        label_seq(v@) == seq![a@, b@, c@, d@],
{
    let mut v: Vec<&'a str> = Vec::new();
    v.push(a);
    v.push(b);
    v.push(c);
    v.push(d);
    assert(label_seq(v@) =~= seq![a@, b@, c@, d@]);
    v
}

} // verus!
