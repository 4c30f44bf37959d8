//! Small text builders: repeated characters and decimal numerals.

use vstd::prelude::*;

verus! {

/// The character of a decimal digit.
pub open spec fn digit_char(d: int) -> char {
    ((48 + d) as u8) as char
}

/// The decimal numeral of a natural number, without leading zeros.
pub open spec fn natural_text(n: nat) -> Seq<char>
    decreases n,
{
    if n < 10 {
        seq![digit_char(n as int)]
    } else {
        natural_text(n / 10).push(digit_char((n % 10) as int))
    }
}

/// The decimal numeral of an integer: a minus sign before a negative one.
pub open spec fn decimal_text(i: int) -> Seq<char> {
    if i < 0 {
        seq!['-'] + natural_text((-i) as nat)
    } else {
        natural_text(i as nat)
    }
}

/// `count` copies of `ch`.
pub open spec fn repeated(count: nat, ch: char) -> Seq<char> {
    Seq::new(count, |i: int| ch)
}

/// Appends one character to a string.
///
/// Calls `String::push`; the contract states that the text grows by exactly
/// that character at its end.
#[verifier::external_body]
pub(crate) fn push_char(text: &mut String, ch: char)
    ensures
        final(text)@ == old(text)@.push(ch),
{
    text.push(ch);
}

/// A string of `length` copies of `ch`.
pub fn from_char(length: usize, ch: char) -> (out: String)
    ensures
        out@ == repeated(length as nat, ch),
{
    let mut buf = String::new();
    let mut i: usize = 0;
    while i < length
        invariant
            0 <= i <= length,
            buf@ == repeated(i as nat, ch),
        decreases length - i,
    {
        push_char(&mut buf, ch);
        i += 1;
        assert(buf@ =~= repeated(i as nat, ch));
    }
    buf
}

/// The decimal numeral of an unsigned number.
pub fn natural_string(n: u64) -> (out: String)
    ensures
        out@ == natural_text(n as nat),
{
    let mut digits: Vec<char> = Vec::new();
    let mut rest: u64 = n;
    let ghost mut tail: Seq<char> = Seq::empty();
    while rest >= 10
        invariant
            natural_text(n as nat) == natural_text(rest as nat) + tail,
            digits@.len() == tail.len(),
            forall|p: int| 0 <= p < tail.len() ==> #[trigger] digits@[p] == tail[tail.len() - 1 - p],
        decreases rest,
    {
        let d: u8 = (rest % 10) as u8;
        let c: char = (48u8 + d) as char;
        assert(c == digit_char((rest % 10) as int));
        proof {
            let lower = natural_text((rest / 10) as nat);
            assert(natural_text(rest as nat) == lower.push(c));
            assert(lower.push(c) + tail =~= lower + (seq![c] + tail));
            tail = seq![c] + tail;
        }
        digits.push(c);
        rest = rest / 10;
    }
    let c: char = (48u8 + (rest as u8)) as char;
    assert(c == digit_char(rest as int));
    let ghost whole: Seq<char> = seq![c] + tail;
    assert(natural_text(n as nat) =~= whole);
    digits.push(c);
    let mut out = String::new();
    let mut k: usize = digits.len();
    while k > 0
        invariant
            0 <= k <= digits@.len(),
            digits@.len() == whole.len(),
            forall|p: int| 0 <= p < whole.len() ==> #[trigger] digits@[p] == whole[whole.len() - 1 - p],
            out@ == whole.subrange(0, whole.len() - k),
        decreases k,
    {
        k -= 1;
        push_char(&mut out, digits[k]);
        assert(out@ =~= whole.subrange(0, whole.len() - k));
    }
    assert(out@ =~= whole);
    out
}

/// The decimal numeral of a signed number.
pub fn decimal_string(i: i64) -> (out: String)
    ensures
        out@ == decimal_text(i as int),
{
    if i < 0 {
        let magnitude: u64 = if i == i64::MIN {
            9223372036854775808u64
        } else {
            (-i) as u64
        };
        let body = natural_string(magnitude);
        let mut out = String::new();
        push_char(&mut out, '-');
        out.append(body.as_str());
        assert(out@ =~= decimal_text(i as int));
        out
    } else {
        natural_string(i as u64)
    }
}

} // verus!
