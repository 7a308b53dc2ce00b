//! Small operations on text that the rest of the crate is built from.

use vstd::prelude::*;
use vstd::std_specs::iter::IteratorSpec;

verus! {

/// `String::push` of the standard library: the character is appended at the
/// end and nothing else changes.
pub assume_specification[ String::push ](s: &mut String, c: char)
    ensures
        final(s)@ == old(s)@.push(c),
;

/// The decimal digit `d` as a character.
pub open spec fn digit_char(d: nat) -> char
    recommends
        d < 10,
{
    if d == 0 {
        '0'
    } else if d == 1 {
        '1'
    } else if d == 2 {
        '2'
    } else if d == 3 {
        '3'
    } else if d == 4 {
        '4'
    } else if d == 5 {
        '5'
    } else if d == 6 {
        '6'
    } else if d == 7 {
        '7'
    } else if d == 8 {
        '8'
    } else {
        '9'
    }
}

/// The decimal numeral of `n`: no sign, no leading zero but for zero itself.
pub open spec fn decimal(n: nat) -> Seq<char>
    decreases n,
{
    if n < 10 {
        seq![digit_char(n)]
    } else {
        decimal(n / 10).push(digit_char(n % 10))
    }
}

/// The numeral of an integer: `decimal`, after a minus sign below zero.
pub open spec fn signed_decimal(n: int) -> Seq<char> {
    if n < 0 {
        seq!['-'] + decimal((-n) as nat)
    } else {
        decimal(n as nat)
    }
}

fn digit(d: u64) -> (c: char)
    requires
        d < 10,
    ensures
        c == digit_char(d as nat),
{
    if d == 0 {
        '0'
    } else if d == 1 {
        '1'
    } else if d == 2 {
        '2'
    } else if d == 3 {
        '3'
    } else if d == 4 {
        '4'
    } else if d == 5 {
        '5'
    } else if d == 6 {
        '6'
    } else if d == 7 {
        '7'
    } else if d == 8 {
        '8'
    } else {
        '9'
    }
}

/// Appends the decimal numeral of `n` to `out`.
pub fn push_decimal(out: &mut String, n: u64)
    ensures
        final(out)@ == old(out)@ + decimal(n as nat),
    decreases n,
{
    if n >= 10 {
        push_decimal(out, n / 10);
    }
    out.push(digit(n % 10));
}

/// Appends the numeral of `n` to `out`, with a minus sign below zero.
pub fn push_signed_decimal(out: &mut String, n: i64)
    ensures
        final(out)@ == old(out)@ + signed_decimal(n as int),
{
    if n < 0 {
        out.push('-');
        // The magnitude of `i64::MIN` does not fit in an `i64`: go through `u64`.
        let magnitude: u64 = if n == i64::MIN {
            9223372036854775808u64
        } else {
            (-n) as u64
        };
        push_decimal(out, magnitude);
    } else {
        push_decimal(out, n as u64);
    }
}

/// A numeral has at least one character.
pub proof fn lemma_decimal_nonempty(n: nat)
    ensures
        decimal(n).len() >= 1,
        n >= 10 ==> decimal(n).len() >= 2,
    decreases n,
{
    if n >= 10 {
        lemma_decimal_nonempty(n / 10);
    }
}

/// Different numbers have different numerals.
pub proof fn lemma_decimal_injective(a: nat, b: nat)
    requires
        decimal(a) == decimal(b),
    ensures
        a == b,
    decreases a,
{
    lemma_decimal_nonempty(a);
    lemma_decimal_nonempty(b);
    if a < 10 && b < 10 {
        assert(decimal(a)[0] == digit_char(a));
        assert(decimal(b)[0] == digit_char(b));
    } else if a >= 10 && b >= 10 {
        assert(decimal(a).drop_last() == decimal(a / 10));
        assert(decimal(b).drop_last() == decimal(b / 10));
        assert(decimal(a).last() == digit_char(a % 10));
        assert(decimal(b).last() == digit_char(b % 10));
        lemma_decimal_injective(a / 10, b / 10);
    }
}

/// The text of an optional string.
pub open spec fn text_view(text: Option<String>) -> Option<Seq<char>> {
    match text {
        Some(text) => Some(text@),
        None => None,
    }
}

/// The texts of an optional pair of strings.
pub open spec fn pair_view(pair: Option<(String, String)>) -> Option<(Seq<char>, Seq<char>)> {
    match pair {
        Some((first, second)) => Some((first@, second@)),
        None => None,
    }
}

/// The characters of `s`, one by one.
pub fn chars_of(s: &str) -> (chars: Vec<char>)
    ensures
        chars@ == s@,
{
    broadcast use vstd::string::group_string_axioms;

    let mut rest = s.chars();
    let mut chars: Vec<char> = Vec::new();
    loop
        invariant
            rest.obeys_prophetic_iter_laws(),
            rest.decrease() is Some,
            chars@ + rest.remaining() == s@,
        ensures
            chars@ == s@,
        decreases rest.decrease()->0,
    {
        let ghost before = rest.remaining();
        match rest.next() {
            Some(c) => {
                chars.push(c);
                assert(chars@ + rest.remaining() =~= s@) by {
                    assert(before == seq![c] + rest.remaining());
                }
            },
            None => {
                assert(chars@ =~= s@);
                break ;
            },
        }
    }
    chars
}

/// The text made of `chars[from..to]`.
pub fn text_of(chars: &Vec<char>, from: usize, to: usize) -> (text: String)
    requires
        from <= to <= chars@.len(),
    ensures
        text@ == chars@.subrange(from as int, to as int),
{
    let mut text = String::new();
    let mut i: usize = from;
    while i < to
        invariant
            from <= i <= to <= chars@.len(),
            text@ == chars@.subrange(from as int, i as int),
        decreases to - i,
    {
        text.push(chars[i]);
        i = i + 1;
        assert(text@ =~= chars@.subrange(from as int, i as int));
    }
    text
}

} // verus!
