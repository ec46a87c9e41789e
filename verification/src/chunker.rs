//! Splitting a long reply into segments that fit the transport's message limit.
//!
//! Lengths are counted in characters (Unicode scalar values), so a segment
//! boundary never falls inside a character.

use vstd::prelude::*;
use vstd::string::*;

verus! {

/// The transport's limit on the length of one message, in characters.
pub const MAX_MESSAGE_LEN: usize = 2000;

/// Number of segments a text of `len` characters is split into.
pub open spec fn chunk_count(len: nat, max_len: nat) -> nat {
    if max_len == 0 {
        0
    } else {
        (len + max_len - 1) as nat / max_len
    }
}

/// The `i`-th segment of `text`.
pub open spec fn chunk_at(text: Seq<char>, max_len: nat, i: int) -> Seq<char> {
    text.subrange(i * max_len, vstd::math::min((i + 1) * max_len, text.len() as int))
}

/// The segments of `text`, in order.
pub open spec fn chunks(text: Seq<char>, max_len: nat) -> Seq<Seq<char>> {
    Seq::new(chunk_count(text.len(), max_len), |i: int| chunk_at(text, max_len, i))
}

/// The concatenation of `parts`, in order.
pub open spec fn concat(parts: Seq<Seq<char>>) -> Seq<char>
    decreases parts.len(),
{
    if parts.len() == 0 {
        Seq::empty()
    } else {
        concat(parts.drop_last()) + parts.last()
    }
}

proof fn lemma_chunk_count_step(len: nat, max_len: nat, k: nat)
    requires
        max_len > 0,
    ensures
        k * max_len < len <==> k < chunk_count(len, max_len),
        chunk_count(len, max_len) * max_len >= len,
        len > 0 ==> (chunk_count(len, max_len) - 1) * max_len < len,
        len == 0 ==> chunk_count(len, max_len) == 0,
{
    let c = chunk_count(len, max_len);
    let t = (len + max_len - 1) as int;
    let m = max_len as int;
    assert(t == m * (t / m) + t % m && 0 <= t % m < m) by {
        vstd::arithmetic::div_mod::lemma_fundamental_div_mod(t, m);
    }
    assert(c == t / m);
    assert(c * max_len == m * (t / m)) by (nonlinear_arith)
        requires
            c == t / m,
            m == max_len,
    ;
    if k < c {
        assert(k * max_len <= (c - 1) * max_len) by (nonlinear_arith)
            requires
                k <= c - 1,
        ;
        assert((c - 1) * max_len == c * max_len - max_len) by (nonlinear_arith);
    } else {
        assert(k * max_len >= c * max_len) by (nonlinear_arith)
            requires
                k >= c,
        ;
    }
    if len > 0 {
        assert((c - 1) * max_len == c * max_len - max_len) by (nonlinear_arith);
    } else {
        assert(t / m == 0) by (nonlinear_arith)
            requires
                0 <= t < m,
        ;
    }
}

/// Joining the segments of a text gives the text back, no segment is empty or
/// longer than the limit, and there are `ceil(len / max_len)` of them.
pub proof fn lemma_chunks_partition(text: Seq<char>, max_len: nat)
    requires
        max_len > 0,
    ensures
        concat(chunks(text, max_len)) == text,
        forall|i: int|
            0 <= i < chunks(text, max_len).len() ==> 0 < (#[trigger] chunks(text, max_len)[i]).len()
                <= max_len,
        chunks(text, max_len).len() * max_len >= text.len(),
        text.len() > 0 ==> (chunks(text, max_len).len() - 1) * max_len < text.len(),
        text.len() == 0 ==> chunks(text, max_len).len() == 0,
{
    let parts = chunks(text, max_len);
    lemma_chunk_count_step(text.len(), max_len, 0);
    assert forall|i: int| 0 <= i < parts.len() implies 0 < (#[trigger] parts[i]).len()
        <= max_len by {
        lemma_chunk_count_step(text.len(), max_len, i as nat);
        assert((i + 1) * max_len == i * max_len + max_len) by (nonlinear_arith);
    }
    lemma_concat_prefix(text, max_len, parts.len());
    lemma_chunk_count_step(text.len(), max_len, parts.len());
    assert(parts.take(parts.len() as int) == parts);
    if text.len() > 0 {
        let last = parts.len() - 1;
        lemma_chunk_count_step(text.len(), max_len, last as nat);
    }
    assert(text.subrange(0, text.len() as int) == text);
}

proof fn lemma_concat_prefix(text: Seq<char>, max_len: nat, k: nat)
    requires
        max_len > 0,
        k <= chunks(text, max_len).len(),
    ensures
        concat(chunks(text, max_len).take(k as int)) == text.subrange(
            0,
            vstd::math::min((k * max_len) as int, text.len() as int),
        ),
    decreases k,
{
    let parts = chunks(text, max_len);
    let head = parts.take(k as int);
    if k == 0 {
        assert(0 * max_len == 0) by (nonlinear_arith);
        assert(text.subrange(0, 0) == Seq::<char>::empty());
    } else {
        lemma_concat_prefix(text, max_len, (k - 1) as nat);
        lemma_chunk_count_step(text.len(), max_len, (k - 1) as nat);
        assert((k - 1 + 1) * max_len == (k - 1) * max_len + max_len) by (nonlinear_arith);
        assert(head.drop_last() == parts.take(k - 1));
        assert(head.last() == chunk_at(text, max_len, k - 1));
        let lo = (k - 1) * max_len;
        let hi = vstd::math::min((k * max_len) as int, text.len() as int);
        assert(text.subrange(0, lo) + text.subrange(lo, hi) == text.subrange(0, hi));
    }
}

/// Splits `text` into consecutive segments of at most `max_len` characters.
///
/// Nothing is dropped, reordered or inserted; only the last segment may be
/// shorter than `max_len`. An empty text, or a limit of zero, gives no segment.
pub fn split_text(text: &str, max_len: usize) -> (parts: Vec<String>)
    ensures
        parts.deep_view() == chunks(text@, max_len as nat),
        parts.len() == chunk_count(text@.len(), max_len as nat),
        max_len > 0 ==> concat(parts.deep_view()) == text@,
        forall|i: int| 0 <= i < parts.len() ==> 0 < (#[trigger] parts[i])@.len() <= max_len,
        max_len > 0 ==> parts.len() * max_len >= text@.len(),
        max_len > 0 && text@.len() > 0 ==> (parts.len() - 1) * max_len < text@.len(),
        text@.len() == 0 ==> parts.len() == 0,
{
    let mut parts: Vec<String> = Vec::new();
    let len = text.unicode_len();
    if len == 0 || max_len == 0 {
        proof {
            if max_len > 0 {
                lemma_chunks_partition(text@, max_len as nat);
            }
            assert(parts.deep_view() == chunks(text@, max_len as nat));
        }
        return parts;
    }
    let mut start: usize = 0;
    proof {
        assert(0 * max_len == 0) by (nonlinear_arith);
        lemma_chunk_count_step(text@.len(), max_len as nat, 0);
    }
    while start < len
        invariant
            max_len > 0,
            len == text@.len(),
            start <= len,
            start == vstd::math::min(parts.len() * max_len, len as int),
            parts.deep_view() == chunks(text@, max_len as nat).take(parts.len() as int),
            parts.len() <= chunks(text@, max_len as nat).len(),
        decreases len - start,
    {
        let end = if len - start > max_len {
            start + max_len
        } else {
            len
        };
        let ghost k = parts.len();
        let ghost before = parts.deep_view();
        proof {
            lemma_chunk_count_step(text@.len(), max_len as nat, k as nat);
            assert((k + 1) * max_len == k * max_len + max_len) by (nonlinear_arith);
        }
        let piece = text.substring_char(start, end).to_owned();
        parts.push(piece);
        proof {
            let all = chunks(text@, max_len as nat);
            assert(piece@ == all[k as int]);
            assert(parts.deep_view() == before.push(piece@));
            assert(all.take(k + 1) == all.take(k as int).push(all[k as int]));
        }
        start = end;
    }
    proof {
        let all = chunks(text@, max_len as nat);
        lemma_chunk_count_step(text@.len(), max_len as nat, parts.len() as nat);
        assert(all.take(all.len() as int) == all);
        lemma_chunks_partition(text@, max_len as nat);
        assert forall|i: int| 0 <= i < parts.len() implies 0 < (#[trigger] parts[i])@.len()
            <= max_len by {
            assert(parts.deep_view()[i] == parts[i]@);
        }
    }
    parts
}

/// Splits a reply into segments that each fit in one message.
pub fn split_string(s: &String) -> (parts: Vec<String>)
    ensures
        parts.deep_view() == chunks(s@, MAX_MESSAGE_LEN as nat),
        parts.len() == chunk_count(s@.len(), MAX_MESSAGE_LEN as nat),
        concat(parts.deep_view()) == s@,
        forall|i: int| 0 <= i < parts.len() ==> 0 < (#[trigger] parts[i])@.len() <= MAX_MESSAGE_LEN,
        parts.len() * MAX_MESSAGE_LEN >= s@.len(),
        s@.len() > 0 ==> (parts.len() - 1) * MAX_MESSAGE_LEN < s@.len(),
        s@.len() == 0 ==> parts.len() == 0,
{
    split_text(s.as_str(), MAX_MESSAGE_LEN)
}

} // verus!
