//! Character-level text operations shared by the parts of the relay.
//!
//! Texts are modelled as sequences of characters (`Seq<char>`), the view that
//! `str` and `String` have.

use vstd::prelude::*;
use vstd::string::*;

verus! {

/// `String::push` appends one character to the end of the string.
pub assume_specification[ String::push ](s: &mut String, ch: char)
    ensures
        final(s)@ == old(s)@.push(ch),
;

/// The characters of `text`, in order.
pub fn chars_of(text: &str) -> (chars: Vec<char>)
    ensures
        chars@ == text@,
{
    let mut chars: Vec<char> = Vec::new();
    for c in it: text.chars()
        invariant
            it.seq() == text@,
            chars@ == it.seq().take(it.index() as int),
    {
        chars.push(c);
    }
    chars
}

/// The string made of `chars`, in order.
pub fn string_of(chars: &Vec<char>) -> (text: String)
    ensures
        text@ == chars@,
{
    let mut text = String::new();
    let mut i: usize = 0;
    while i < chars.len()
        invariant
            i <= chars.len(),
            text@ == chars@.take(i as int),
        decreases chars.len() - i,
    {
        text.push(chars[i]);
        i += 1;
    }
    text
}

/// Whether two texts hold the same characters.
pub fn same_text(a: &str, b: &str) -> (same: bool)
    ensures
        same == (a@ == b@),
{
    let left = a.to_owned();
    let right = b.to_owned();
    left == right
}

/// Whether `pattern` occurs in `chars` at position `at`.
pub fn occurs_at(chars: &Vec<char>, at: usize, pattern: &Vec<char>) -> (found: bool)
    requires
        at <= chars.len(),
    ensures
        found == pattern@.is_prefix_of(chars@.skip(at as int)),
{
    if chars.len() - at < pattern.len() {
        return false;
    }
    let mut j: usize = 0;
    while j < pattern.len()
        invariant
            at + pattern.len() <= chars.len(),
            j <= pattern.len(),
            forall|k: int| 0 <= k < j ==> chars@[at + k] == pattern@[k],
        decreases pattern.len() - j,
    {
        if chars[at + j] != pattern[j] {
            assert(chars@.skip(at as int).subrange(0, pattern@.len() as int)[j as int]
                != pattern@[j as int]);
            return false;
        }
        j += 1;
    }
    assert(pattern@ =~= chars@.skip(at as int).subrange(0, pattern@.len() as int));
    true
}

/// Whether `text` begins with `prefix`.
pub fn starts_with(text: &str, prefix: &str) -> (found: bool)
    ensures
        found == prefix@.is_prefix_of(text@),
{
    let chars = chars_of(text);
    let pattern = chars_of(prefix);
    assert(chars@.skip(0) == chars@);
    occurs_at(&chars, 0, &pattern)
}

/// `text` with every occurrence of `pattern` replaced by `with`.
///
/// Occurrences are found from the left and do not overlap. An empty pattern
/// occurs nowhere.
pub open spec fn replaced(text: Seq<char>, pattern: Seq<char>, with: Seq<char>) -> Seq<char>
    decreases text.len(),
{
    if pattern.len() == 0 || text.len() == 0 {
        text
    } else if pattern.is_prefix_of(text) {
        with + replaced(text.skip(pattern.len() as int), pattern, with)
    } else {
        seq![text[0]] + replaced(text.skip(1), pattern, with)
    }
}

/// Replacing passes over a leading part that holds no first character of the pattern.
pub proof fn lemma_replaced_after_prefix(
    head: Seq<char>,
    tail: Seq<char>,
    pattern: Seq<char>,
    with: Seq<char>,
)
    requires
        pattern.len() > 0,
        !head.contains(pattern[0]),
    ensures
        replaced(head + tail, pattern, with) == head + replaced(tail, pattern, with),
    decreases head.len(),
{
    let text = head + tail;
    if head.len() == 0 {
        assert(text == tail);
        assert(head + replaced(tail, pattern, with) == replaced(tail, pattern, with));
    } else {
        assert(text[0] == head[0]);
        assert(head[0] != pattern[0]);
        if pattern.is_prefix_of(text) {
            assert(text.subrange(0, pattern.len() as int)[0] == pattern[0]);
        }
        let rest = head.skip(1);
        assert forall|i: int| 0 <= i < rest.len() implies rest[i] != pattern[0] by {
            assert(rest[i] == head[i + 1]);
        }
        lemma_replaced_after_prefix(rest, tail, pattern, with);
        assert(text.skip(1) == rest + tail);
        assert(seq![text[0]] + (rest + replaced(tail, pattern, with)) == head + replaced(
            tail,
            pattern,
            with,
        ));
    }
}

/// Replaces every occurrence of `pattern` in `text` by `with`.
pub fn replace_all(text: &str, pattern: &str, with: &str) -> (out: String)
    ensures
        out@ == replaced(text@, pattern@, with@),
{
    let chars = chars_of(text);
    let pat = chars_of(pattern);
    let sub = chars_of(with);
    if pat.len() == 0 {
        return text.to_owned();
    }
    let mut out: Vec<char> = Vec::new();
    let mut i: usize = 0;
    proof {
        assert(chars@.skip(0) == chars@);
        assert(out@ + replaced(chars@, pat@, sub@) == replaced(chars@, pat@, sub@));
    }
    while i < chars.len()
        invariant
            i <= chars.len(),
            pat.len() > 0,
            out@ + replaced(chars@.skip(i as int), pat@, sub@) == replaced(chars@, pat@, sub@),
        decreases chars.len() - i,
    {
        let ghost rest = chars@.skip(i as int);
        if occurs_at(&chars, i, &pat) {
            let ghost before = out@;
            let mut k: usize = 0;
            while k < sub.len()
                invariant
                    k <= sub.len(),
                    out@ == before + sub@.take(k as int),
                decreases sub.len() - k,
            {
                out.push(sub[k]);
                k += 1;
            }
            proof {
                assert(sub@.take(sub.len() as int) == sub@);
                assert(rest.skip(pat.len() as int) == chars@.skip(i + pat.len()));
                assert((before + sub@) + replaced(rest.skip(pat.len() as int), pat@, sub@)
                    == before + (sub@ + replaced(rest.skip(pat.len() as int), pat@, sub@)));
            }
            i += pat.len();
        } else {
            let ghost before = out@;
            out.push(chars[i]);
            proof {
                assert(rest.skip(1) == chars@.skip(i + 1));
                assert(rest[0] == chars@[i as int]);
                assert(before.push(rest[0]) + replaced(rest.skip(1), pat@, sub@) == before + (
                seq![rest[0]] + replaced(rest.skip(1), pat@, sub@)));
            }
            i += 1;
        }
    }
    assert(out@ + Seq::<char>::empty() == out@);
    string_of(&out)
}

/// The character that writes the decimal digit `d`.
pub open spec fn digit_char(d: int) -> char {
    if d == 0 {
        '0'
    } else if d == 1 {
        '1'
    } else if d == 2 {
        '2'
    } else if d == 3 {
        '3'
    } else if d == 4 {
        '4'
    } else if d == 5 {
        '5'
    } else if d == 6 {
        '6'
    } else if d == 7 {
        '7'
    } else if d == 8 {
        '8'
    } else {
        '9'
    }
}

/// The decimal digits of `n`, most significant first, without leading zeros.
pub open spec fn decimal_digits(n: nat) -> Seq<char>
    decreases n,
{
    if n < 10 {
        seq![digit_char(n as int)]
    } else {
        decimal_digits(n / 10).push(digit_char((n % 10) as int))
    }
}

/// The decimal notation of `n`, with a leading minus sign when it is negative.
pub open spec fn decimal(n: int) -> Seq<char> {
    if n < 0 {
        seq!['-'] + decimal_digits((-n) as nat)
    } else {
        decimal_digits(n as nat)
    }
}

fn digit(d: u64) -> (c: char)
    requires
        d < 10,
    ensures
        c == digit_char(d as int),
{
    if d == 0 {
        '0'
    } else if d == 1 {
        '1'
    } else if d == 2 {
        '2'
    } else if d == 3 {
        '3'
    } else if d == 4 {
        '4'
    } else if d == 5 {
        '5'
    } else if d == 6 {
        '6'
    } else if d == 7 {
        '7'
    } else if d == 8 {
        '8'
    } else {
        '9'
    }
}

/// Appends the decimal digits of `n` to `out`.
pub fn push_decimal(out: &mut String, n: u64)
    ensures
        final(out)@ == old(out)@ + decimal_digits(n as nat),
    decreases n,
{
    if n >= 10 {
        push_decimal(out, n / 10);
    }
    out.push(digit(n % 10));
    assert(final(out)@ == old(out)@ + decimal_digits(n as nat)) by {
        if n >= 10 {
            assert((old(out)@ + decimal_digits(n as nat / 10)).push(digit_char((n % 10) as int))
                == old(out)@ + decimal_digits(n as nat / 10).push(digit_char((n % 10) as int)));
        } else {
            assert(old(out)@.push(digit_char(n as int)) == old(out)@ + seq![digit_char(n as int)]);
        }
    }
}

/// Appends the decimal notation of `n` to `out`.
pub fn push_signed_decimal(out: &mut String, n: i32)
    ensures
        final(out)@ == old(out)@ + decimal(n as int),
{
    if n < 0 {
        out.push('-');
        let magnitude: u64 = (-(n as i64)) as u64;
        push_decimal(out, magnitude);
        assert(old(out)@.push('-') + decimal_digits(magnitude as nat) == old(out)@ + (seq!['-']
            + decimal_digits(magnitude as nat)));
    } else {
        push_decimal(out, n as u64);
    }
}

} // verus!
