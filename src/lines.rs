use vstd::prelude::*;
use crate::signals::SshStreamLine;
use vstd::utf8::{decode_first_scalar, decode_utf8, length_of_first_scalar, pop_first_scalar, valid_utf8};
use crate::text::{
    chars_of, decode_lossy, extend_chars, slice_chars, string_from_chars, trim_text, trimmed,
    utf8_lossy,
};

verus! {

/// Position of the first newline of `s`, or `s.len()` when it has none.
pub open spec fn index_of_nl(s: Seq<char>) -> int
    decreases s.len(),
{
    if s.len() == 0 {
        0
    } else if s[0] == '\n' {
        0
    } else {
        1 + index_of_nl(s.drop_first())
    }
}

/// Whether `s` holds no newline.
pub open spec fn no_newline(s: Seq<char>) -> bool {
    forall|k: int| 0 <= k < s.len() ==> s[k] != '\n'
}

/// `s` without its final carriage return, if it ends in one.
pub open spec fn strip_cr(s: Seq<char>) -> Seq<char> {
    if s.len() > 0 && s.last() == '\r' {
        s.drop_last()
    } else {
        s
    }
}

/// The newline-terminated lines of `s`, each without its terminator and
/// one carriage return before it.
pub open spec fn complete_lines(s: Seq<char>) -> Seq<Seq<char>>
    decreases s.len(),
{
    let i = index_of_nl(s);
    if 0 <= i < s.len() {
        seq![strip_cr(s.subrange(0, i))] + complete_lines(s.subrange(i + 1, s.len() as int))
    } else {
        Seq::empty()
    }
}

/// What follows the last newline of `s` (all of `s` when it has none).
pub open spec fn unterminated_tail(s: Seq<char>) -> Seq<char>
    decreases s.len(),
{
    let i = index_of_nl(s);
    if 0 <= i < s.len() {
        unterminated_tail(s.subrange(i + 1, s.len() as int))
    } else {
        s
    }
}

/// Lines emitted when `chunks` are fed, one after another, to a buffer that
/// holds `pending`.
pub open spec fn framed_lines(pending: Seq<char>, chunks: Seq<Seq<char>>) -> Seq<Seq<char>>
    decreases chunks.len(),
{
    if chunks.len() == 0 {
        Seq::empty()
    } else {
        let s = pending + chunks[0];
        complete_lines(s) + framed_lines(unterminated_tail(s), chunks.drop_first())
    }
}

/// What the buffer holds after `chunks` are fed to it from `pending`.
pub open spec fn framed_rest(pending: Seq<char>, chunks: Seq<Seq<char>>) -> Seq<char>
    decreases chunks.len(),
{
    if chunks.len() == 0 {
        pending
    } else {
        framed_rest(unterminated_tail(pending + chunks[0]), chunks.drop_first())
    }
}

/// `index_of_nl` is the first newline, or the length.
pub proof fn lemma_index_of_nl(s: Seq<char>)
    ensures
        0 <= index_of_nl(s) <= s.len(),
        forall|k: int| 0 <= k < index_of_nl(s) ==> s[k] != '\n',
        index_of_nl(s) < s.len() ==> s[index_of_nl(s)] == '\n',
    decreases s.len(),
{
    if s.len() > 0 && s[0] != '\n' {
        let t = s.drop_first();
        lemma_index_of_nl(t);
        assert forall|k: int| 0 <= k < index_of_nl(s) implies s[k] != '\n' by {
            if k > 0 {
                assert(s[k] == t[k - 1]);
            }
        }
    }
}

/// A position with no newline before it, and a newline or the end at it, is
/// `index_of_nl`.
pub proof fn lemma_first_nl(s: Seq<char>, j: int)
    requires
        0 <= j <= s.len(),
        forall|k: int| 0 <= k < j ==> s[k] != '\n',
        j < s.len() ==> s[j] == '\n',
    ensures
        index_of_nl(s) == j,
{
    lemma_index_of_nl(s);
    let i = index_of_nl(s);
    if i < j {
        assert(s[i] != '\n');
    } else if j < i {
        assert(s[j] != '\n');
    }
}

/// A text without newline has no complete line and is its own tail.
pub proof fn lemma_no_newline(s: Seq<char>)
    requires
        no_newline(s),
    ensures
        complete_lines(s) == Seq::<Seq<char>>::empty(),
        unterminated_tail(s) == s,
{
    lemma_first_nl(s, s.len() as int);
}

/// The tail never holds a newline.
pub proof fn lemma_tail_no_newline(s: Seq<char>)
    ensures
        no_newline(unterminated_tail(s)),
    decreases s.len(),
{
    lemma_index_of_nl(s);
    let i = index_of_nl(s);
    if i < s.len() {
        lemma_tail_no_newline(s.subrange(i + 1, s.len() as int));
    }
}

/// Splitting text in two: the lines of the first part, then those of its
/// tail followed by the second part.
pub proof fn lemma_lines_concat(x: Seq<char>, y: Seq<char>)
    ensures
        complete_lines(x + y) == complete_lines(x) + complete_lines(unterminated_tail(x) + y),
        unterminated_tail(x + y) == unterminated_tail(unterminated_tail(x) + y),
    decreases x.len(),
{
    lemma_index_of_nl(x);
    let i = index_of_nl(x);
    let xy = x + y;
    if i < x.len() {
        assert forall|k: int| 0 <= k < i implies xy[k] != '\n' by {
            assert(xy[k] == x[k]);
        }
        assert(xy[i] == x[i]);
        lemma_first_nl(xy, i);
        let rest = x.subrange(i + 1, x.len() as int);
        assert(xy.subrange(0, i) =~= x.subrange(0, i));
        assert(xy.subrange(i + 1, xy.len() as int) =~= rest + y);
        lemma_lines_concat(rest, y);
        let head = seq![strip_cr(x.subrange(0, i))];
        assert(complete_lines(xy) == head + complete_lines(rest + y));
        assert(complete_lines(x) == head + complete_lines(rest));
        assert(head + (complete_lines(rest) + complete_lines(unterminated_tail(rest) + y))
            =~= (head + complete_lines(rest)) + complete_lines(unterminated_tail(rest) + y));
    } else {
        assert(Seq::<Seq<char>>::empty() + complete_lines(x + y) =~= complete_lines(x + y));
    }
}

/// Line framing does not depend on how a payload is split: feeding its
/// decoded chunks one after another to a buffer that holds no newline emits
/// the lines of the buffer followed by the whole payload, and leaves the same
/// unterminated tail.
pub proof fn lemma_framing_split_invariant(pending: Seq<char>, chunks: Seq<Seq<char>>)
    requires
        no_newline(pending),
    ensures
        framed_lines(pending, chunks) == complete_lines(pending + chunks.flatten()),
        framed_rest(pending, chunks) == unterminated_tail(pending + chunks.flatten()),
    decreases chunks.len(),
{
    if chunks.len() == 0 {
        assert(pending + chunks.flatten() =~= pending);
        lemma_no_newline(pending);
    } else {
        let s = pending + chunks[0];
        let rest = chunks.drop_first();
        let p2 = unterminated_tail(s);
        lemma_tail_no_newline(s);
        lemma_framing_split_invariant(p2, rest);
        lemma_lines_concat(s, rest.flatten());
        assert(pending + chunks.flatten() =~= s + rest.flatten());
    }
}

/// Decoding two valid UTF-8 byte sequences one after the other is decoding
/// their concatenation.
pub proof fn lemma_decode_concat(b1: Seq<u8>, b2: Seq<u8>)
    requires
        valid_utf8(b1),
        valid_utf8(b2),
    ensures
        valid_utf8(b1 + b2),
        decode_utf8(b1 + b2) == decode_utf8(b1) + decode_utf8(b2),
    decreases b1.len(),
{
    vstd::utf8::valid_utf8_concat(b1, b2);
    if b1.len() == 0 {
        assert(b1 + b2 =~= b2);
        assert(decode_utf8(b1) + decode_utf8(b2) =~= decode_utf8(b2));
    } else {
        let rest = pop_first_scalar(b1);
        assert(1 <= length_of_first_scalar(b1) <= b1.len());
        lemma_decode_concat(rest, b2);
        assert(pop_first_scalar(b1 + b2) =~= rest + b2);
        assert(decode_first_scalar(b1 + b2) == decode_first_scalar(b1));
        assert(decode_utf8(b1 + b2) =~= decode_utf8(b1) + decode_utf8(b2));
    }
}

/// The decoding of each chunk, in order.
pub open spec fn decoded_chunks(chunks: Seq<Seq<u8>>) -> Seq<Seq<char>> {
    chunks.map_values(|c: Seq<u8>| decode_utf8(c))
}

/// Decoding valid chunks one by one and joining the texts is decoding the
/// joined bytes.
pub proof fn lemma_decode_flatten(chunks: Seq<Seq<u8>>)
    requires
        forall|i: int| 0 <= i < chunks.len() ==> valid_utf8(#[trigger] chunks[i]),
    ensures
        valid_utf8(chunks.flatten()),
        decoded_chunks(chunks).flatten() == decode_utf8(chunks.flatten()),
    decreases chunks.len(),
{
    if chunks.len() == 0 {
        assert(decoded_chunks(chunks) =~= Seq::<Seq<char>>::empty());
        assert(decode_utf8(Seq::<u8>::empty()) =~= Seq::<char>::empty());
    } else {
        let rest = chunks.drop_first();
        assert forall|i: int| 0 <= i < rest.len() implies valid_utf8(#[trigger] rest[i]) by {
            assert(rest[i] == chunks[i + 1]);
        }
        lemma_decode_flatten(rest);
        assert(valid_utf8(chunks[0]));
        lemma_decode_concat(chunks[0], rest.flatten());
        assert(decoded_chunks(chunks).drop_first() =~= decoded_chunks(rest));
    }
}

/// Byte-level line framing: when every chunk is valid UTF-8 (any split of
/// an ASCII payload, or any split at character boundaries), feeding the
/// chunks one after another emits the lines of the whole payload and leaves
/// its unterminated tail, however it was split.
pub proof fn lemma_byte_framing_split_invariant(pending: Seq<char>, chunks: Seq<Seq<u8>>)
    requires
        no_newline(pending),
        forall|i: int| 0 <= i < chunks.len() ==> valid_utf8(#[trigger] chunks[i]),
    ensures
        framed_lines(pending, decoded_chunks(chunks)) == complete_lines(
            pending + decode_utf8(chunks.flatten()),
        ),
        framed_rest(pending, decoded_chunks(chunks)) == unterminated_tail(
            pending + decode_utf8(chunks.flatten()),
        ),
{
    lemma_decode_flatten(chunks);
    lemma_framing_split_invariant(pending, decoded_chunks(chunks));
}

/// Splits `s` into its complete lines, each tagged for `stream_id`, and the
/// unterminated tail.
fn split_lines(stream_id: u64, is_stderr: bool, s: &Vec<char>) -> (r: (
    Vec<SshStreamLine>,
    Vec<char>,
))
    ensures
        r.0@.len() == complete_lines(s@).len(),
        forall|k: int|
            0 <= k < r.0@.len() ==> {
                &&& (#[trigger] r.0@[k]).stream_id == stream_id
                &&& r.0@[k].is_stderr == is_stderr
                &&& r.0@[k].line@ == complete_lines(s@)[k]
            },
        r.1@ == unterminated_tail(s@),
{
    let n = s.len();
    let mut out: Vec<SshStreamLine> = Vec::new();
    let ghost mut emitted: Seq<Seq<char>> = Seq::empty();
    let mut start: usize = 0;
    let mut finished = false;
    assert(s@.subrange(0, n as int) =~= s@);
    assert(emitted + complete_lines(s@) =~= complete_lines(s@));
    while !finished
        invariant
            n == s@.len(),
            start <= n,
            complete_lines(s@) == emitted + complete_lines(s@.subrange(start as int, n as int)),
            unterminated_tail(s@) == unterminated_tail(s@.subrange(start as int, n as int)),
            out@.len() == emitted.len(),
            forall|k: int|
                0 <= k < out@.len() ==> {
                    &&& (#[trigger] out@[k]).stream_id == stream_id
                    &&& out@[k].is_stderr == is_stderr
                    &&& out@[k].line@ == emitted[k]
                },
            finished ==> no_newline(s@.subrange(start as int, n as int)),
        decreases n - start + (if finished { 0int } else { 1int }),
    {
        let ghost sub = s@.subrange(start as int, n as int);
        let mut j: usize = start;
        while j < n && s[j] != '\n'
            invariant
                n == s@.len(),
                start <= j <= n,
                forall|k: int| start <= k < j ==> s@[k] != '\n',
            decreases n - j,
        {
            j += 1;
        }
        if j == n {
            assert forall|k: int| 0 <= k < sub.len() implies sub[k] != '\n' by {
                assert(sub[k] == s@[start + k]);
            }
            finished = true;
        } else {
            assert forall|k: int| 0 <= k < (j - start) as int implies sub[k] != '\n' by {
                assert(sub[k] == s@[start + k]);
            }
            assert(sub[j - start] == s@[j as int]);
            proof { lemma_first_nl(sub, j - start); }
            let e: usize = if j > start && s[j - 1] == '\r' {
                j - 1
            } else {
                j
            };
            assert(strip_cr(s@.subrange(start as int, j as int)) =~= s@.subrange(
                start as int,
                e as int,
            ));
            let piece = slice_chars(s, start, e);
            let line = string_from_chars(&piece);
            assert(sub.subrange(0, j - start) =~= s@.subrange(start as int, j as int));
            assert(sub.subrange(j - start + 1, sub.len() as int) =~= s@.subrange(
                j + 1,
                n as int,
            ));
            out.push(SshStreamLine { stream_id, is_stderr, line });
            proof {
                let l = s@.subrange(start as int, e as int);
                assert(emitted.push(l) + complete_lines(s@.subrange(j + 1, n as int)) =~= emitted
                    + (seq![l] + complete_lines(s@.subrange(j + 1, n as int))));
                emitted = emitted.push(l);
            }
            start = j + 1;
        }
    }
    proof {
        lemma_no_newline(s@.subrange(start as int, n as int));
    }
    assert(emitted + Seq::<Seq<char>>::empty() =~= emitted);
    let rest = slice_chars(s, start, n);
    (out, rest)
}

/// Appends a decoded chunk of output to `pending` and takes out every line
/// that a newline now ends, in order, each without its newline and one
/// carriage return before it.
pub fn push_lines(stream_id: u64, is_stderr: bool, pending: &mut String, bytes: &[u8]) -> (r: Vec<
    SshStreamLine,
>)
    ensures
        r@.len() == complete_lines(old(pending)@ + utf8_lossy(bytes@)).len(),
        forall|k: int|
            0 <= k < r@.len() ==> {
                &&& (#[trigger] r@[k]).stream_id == stream_id
                &&& r@[k].is_stderr == is_stderr
                &&& r@[k].line@ == complete_lines(old(pending)@ + utf8_lossy(bytes@))[k]
            },
        final(pending)@ == unterminated_tail(old(pending)@ + utf8_lossy(bytes@)),
        valid_utf8(bytes@) ==> utf8_lossy(bytes@) == decode_utf8(bytes@),
{
    let chunk = decode_lossy(bytes);
    let mut all = chars_of(pending.as_str());
    let added = chars_of(chunk.as_str());
    extend_chars(&mut all, &added);
    let (lines, rest) = split_lines(stream_id, is_stderr, &all);
    *pending = string_from_chars(&rest);
    lines
}

/// Empties `pending` at the end of a stream, yielding its whitespace-trimmed
/// content as a last line unless that is empty.
pub fn flush_pending(stream_id: u64, is_stderr: bool, pending: &mut String) -> (r: Option<
    SshStreamLine,
>)
    ensures
        final(pending)@.len() == 0,
        r is None <==> trimmed(old(pending)@).len() == 0,
        old(pending)@.len() == 0 ==> r is None,
        r matches Some(l) ==> l.stream_id == stream_id && l.is_stderr == is_stderr && l.line@
            == trimmed(old(pending)@),
{
    let line = trim_text(pending.as_str());
    *pending = String::new();
    if line.as_str().is_empty() {
        None
    } else {
        Some(SshStreamLine { stream_id, is_stderr, line })
    }
}

} // verus!
