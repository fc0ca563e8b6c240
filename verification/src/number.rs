//! Whole numbers written out in decimal, with thousands separators.

use vstd::prelude::*;

use crate::text::push_char;

verus! {

/// The decimal digit character of `d`.
pub open spec fn digit_char(d: nat) -> char {
    (48 + d) as char
}

/// The decimal digits of `v`, most significant first, with no leading zeros
/// (`0` is written `0`).
pub open spec fn decimal(v: nat) -> Seq<char>
    decreases v,
{
    if v < 10 {
        seq![digit_char(v)]
    } else {
        decimal(v / 10).push(digit_char(v % 10))
    }
}

/// The three digits of `r < 1000`, with leading zeros.
pub open spec fn three_digits(r: nat) -> Seq<char> {
    seq![digit_char(r / 100), digit_char((r / 10) % 10), digit_char(r % 10)]
}

/// `v` in decimal with a comma before every group of three digits counted from
/// the right.
pub open spec fn grouped(v: nat) -> Seq<char>
    decreases v,
{
    if v < 1000 {
        decimal(v)
    } else {
        grouped(v / 1000) + seq![','] + three_digits(v % 1000)
    }
}

/// The placeholder of an unknown number.
pub open spec fn unknown_number() -> Seq<char> {
    "\u{2014}"@
}

pub open spec fn number_spec(value: Option<u64>) -> Seq<char> {
    match value {
        Some(v) => grouped(v as nat),
        None => unknown_number(),
    }
}

fn digit(d: u64) -> (c: char)
    requires
        d < 10,
    ensures
        c == digit_char(d as nat),
{
    let b: u8 = 48u8 + d as u8;
    b as char
}

/// Appends the decimal digits of `v`.
fn push_decimal(out: &mut String, v: u64)
    ensures
        final(out)@ == old(out)@ + decimal(v as nat),
    decreases v,
{
    if v >= 10 {
        push_decimal(out, v / 10);
    }
    push_char(out, digit(v % 10));
    assert(v < 10 ==> old(out)@.push(digit_char(v as nat)) == old(out)@ + decimal(v as nat));
}

/// Appends `v` in decimal with thousands separators.
fn push_grouped(out: &mut String, v: u64)
    ensures
        final(out)@ == old(out)@ + grouped(v as nat),
    decreases v,
{
    if v < 1000 {
        push_decimal(out, v);
    } else {
        push_grouped(out, v / 1000);
        let r = v % 1000;
        push_char(out, ',');
        push_char(out, digit(r / 100));
        push_char(out, digit((r / 10) % 10));
        push_char(out, digit(r % 10));
        assert(old(out)@ + grouped(v as nat) == old(out)@ + grouped((v / 1000) as nat) + seq![',']
            + three_digits(r as nat));
    }
}

/// Writes `v` in decimal.
pub fn decimal_string(v: u64) -> (out: String)
    ensures
        out@ == decimal(v as nat),
{
    let mut out = String::new();
    push_decimal(&mut out, v);
    assert(Seq::<char>::empty() + decimal(v as nat) == decimal(v as nat));
    out
}

/// Writes a count with thousands separators, or a dash when it is unknown.
pub fn number(value: Option<u64>) -> (out: String)
    ensures
        out@ == number_spec(value),
{
    match value {
        Some(v) => {
            let mut out = String::new();
            push_grouped(&mut out, v);
            assert(Seq::<char>::empty() + grouped(v as nat) == grouped(v as nat));
            out
        },
        None => "\u{2014}".to_owned(),
    }
}

/// The decimal digits of `v` split before its last three digits.
proof fn lemma_decimal_split(v: nat)
    requires
        v >= 1000,
    ensures
        decimal(v) == decimal(v / 1000) + three_digits(v % 1000),
{
    assert(decimal(v) == decimal(v / 10).push(digit_char(v % 10)));
    assert(v / 10 >= 100);
    assert(decimal(v / 10) == decimal(v / 100).push(digit_char((v / 10) % 10)));
    assert(v / 100 >= 10);
    assert(decimal(v / 100) == decimal(v / 1000).push(digit_char((v / 100) % 10)));
    assert((v / 10) / 10 == v / 100);
    assert((v / 100) / 10 == v / 1000);
    assert((v / 100) % 10 == (v % 1000) / 100);
    assert((v / 10) % 10 == ((v % 1000) / 10) % 10);
    assert(v % 10 == (v % 1000) % 10);
}

/// The characters of `s` other than commas.
pub open spec fn without_commas(s: Seq<char>) -> Seq<char> {
    s.filter(|c: char| c != ',')
}

proof fn lemma_decimal_has_no_commas(v: nat)
    ensures
        without_commas(decimal(v)) == decimal(v),
    decreases v,
{
    reveal_with_fuel(Seq::filter, 1);
    if v >= 10 {
        lemma_decimal_has_no_commas(v / 10);
        let d = decimal(v / 10);
        assert(decimal(v).drop_last() == d);
    }
}

/// Dropping the separators from a grouped number gives its plain decimal
/// digits: the separators never change the value that is shown.
pub proof fn law_grouping_keeps_digits(v: nat)
    ensures
        without_commas(grouped(v)) == decimal(v),
    decreases v,
{
    broadcast use vstd::seq_lib::group_filter_ensures;
    if v < 1000 {
        lemma_decimal_has_no_commas(v);
    } else {
        law_grouping_keeps_digits(v / 1000);
        lemma_decimal_split(v);
        let f = |c: char| c != ',';
        let head = grouped(v / 1000);
        let tail = three_digits(v % 1000);
        Seq::filter_distributes_over_add(head + seq![','], tail, f);
        Seq::filter_distributes_over_add(head, seq![','], f);
        reveal_with_fuel(Seq::filter, 4);
        assert(seq![','].filter(f) == Seq::<char>::empty()) by {
            reveal_with_fuel(Seq::filter, 2);
            assert(seq![','].drop_last() == Seq::<char>::empty());
        }
        assert(tail.filter(f) == tail) by {
            assert(tail.drop_last().drop_last().drop_last() == Seq::<char>::empty());
            assert(tail.drop_last() == seq![tail[0], tail[1]]);
            assert(tail.drop_last().drop_last() == seq![tail[0]]);
        }
    }
}

} // verus!
