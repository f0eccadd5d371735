//! Building display text: decimal numbers and counted nouns.

use vstd::prelude::*;

verus! {

/// The character of a decimal digit.
pub open spec fn digit_char(d: nat) -> char {
    (('0' as nat) + d) as char
}

/// The decimal text of a natural number, without leading zeroes.
pub open spec fn decimal_text(n: nat) -> Seq<char>
    decreases n,
{
    if n < 10 {
        seq![digit_char(n)]
    } else {
        decimal_text(n / 10).push(digit_char(n % 10))
    }
}

/// Appends one character to a string (`String::push`).
#[verifier::external_body]
pub(crate) fn push_char(s: &mut String, c: char)
    ensures
        final(s)@ == old(s)@.push(c),
{
    s.push(c);
}

fn digit(d: u64) -> (c: char)
    requires
        d < 10,
    ensures
        c == digit_char(d as nat),
{
    let b: u8 = 48u8 + (d as u8);
    b as char
}

/// The decimal text of `n`, as `n.to_string()` writes it.
pub fn decimal(n: u64) -> (s: String)
    ensures
        s@ == decimal_text(n as nat),
    decreases n,
{
    if n < 10 {
        let mut s = String::new();
        push_char(&mut s, digit(n));
        s
    } else {
        let mut s = decimal(n / 10);
        push_char(&mut s, digit(n % 10));
        s
    }
}

/// `count` followed by a space and the noun, singular when `count` is one.
pub open spec fn counted(count: nat, singular: Seq<char>, plural: Seq<char>) -> Seq<char> {
    decimal_text(count) + seq![' '] + if count == 1 { singular } else { plural }
}

/// The count of some items with the noun that fits it: "1 account", "3 accounts".
pub fn maybe_plural(items: usize, singular: &str, plural: &str) -> (s: String)
    ensures
        s@ == counted(items as nat, singular@, plural@),
{
    let mut s = decimal(items as u64);
    push_char(&mut s, ' ');
    if items == 1 {
        s.append(singular);
    } else {
        s.append(plural);
    }
    s
}

} // verus!
