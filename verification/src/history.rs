//! Turning the raw bytes of a shell history file into lines.
//!
//! History files are opaque newline-delimited byte streams and are not
//! guaranteed to hold valid text, so a line is decoded leniently: invalid
//! byte sequences are replaced, never rejected, and a single bad line can
//! never fail the whole read.

use vstd::prelude::*;
use vstd::slice::slice_subrange;

verus! {

/// What `String::from_utf8_lossy` returns for a given byte sequence: a
/// function of the bytes alone.
pub uninterp spec fn lossy_utf8(bytes: Seq<u8>) -> Seq<char>;

/// Every byte is plain ASCII (and so decodes to itself).
pub open spec fn all_ascii(bytes: Seq<u8>) -> bool {
    forall|i: int| 0 <= i < bytes.len() ==> bytes[i] < 0x80
}

/// The bytes read one-for-one as characters.
pub open spec fn ascii_chars(bytes: Seq<u8>) -> Seq<char> {
    bytes.map_values(|b: u8| b as char)
}

/// Relies on `String::from_utf8_lossy`: the result depends on the bytes
/// alone; valid UTF-8 (in particular, pure ASCII) decodes unchanged, and
/// invalid sequences are replaced rather than rejected.
#[verifier::external_body]
pub(crate) fn lossy_decode(bytes: &[u8]) -> (r: String)
    ensures
        r@ == lossy_utf8(bytes@),
        bytes@.len() == 0 ==> r@.len() == 0,
        all_ascii(bytes@) ==> r@ == ascii_chars(bytes@),
{
    String::from_utf8_lossy(bytes).into_owned()
}

/// The newline delimiter of a history file.
pub const NEWLINE: u8 = 10;

/// Length of the first chunk of a byte stream: everything up to and
/// including the first newline, or the whole stream when no newline is
/// left.
pub open spec fn chunk_len(bytes: Seq<u8>) -> nat
    decreases bytes.len(),
{
    if bytes.len() == 0 {
        0
    } else if bytes[0] == NEWLINE {
        1
    } else {
        1 + chunk_len(bytes.skip(1))
    }
}

/// A nonempty stream's first chunk takes at least one byte and at most all
/// of them, so peeling chunks off the front terminates.
pub proof fn lemma_chunk_len_bounds(bytes: Seq<u8>)
    requires
        bytes.len() > 0,
    ensures
        1 <= chunk_len(bytes) <= bytes.len(),
    decreases bytes.len(),
{
    if bytes[0] != NEWLINE {
        if bytes.len() > 1 {
            lemma_chunk_len_bounds(bytes.skip(1));
        } else {
            assert(bytes.skip(1).len() == 0);
            assert(chunk_len(bytes.skip(1)) == 0);
        }
    }
}

/// `chunk_len` named by position: if the first newline stands at `i` the
/// first chunk is `i + 1` bytes long, and if there is none (`i` is the
/// length) it is the whole stream.
proof fn lemma_chunk_len_at(bytes: Seq<u8>, i: int)
    requires
        0 <= i <= bytes.len(),
        forall|j: int| 0 <= j < i ==> bytes[j] != NEWLINE,
        i == bytes.len() || bytes[i] == NEWLINE,
    ensures
        chunk_len(bytes) == if i == bytes.len() {
            i
        } else {
            i + 1
        },
    decreases i,
{
    if i == 0 {
    } else {
        assert(bytes[0] != NEWLINE);
        let rest = bytes.skip(1);
        assert(forall|j: int| 0 <= j < i - 1 ==> rest[j] == bytes[j + 1] && rest[j] != NEWLINE);
        lemma_chunk_len_at(rest, i - 1);
    }
}

/// The raw line chunks of a history byte stream, in file order. Each chunk
/// is the bytes of one line: the bytes before the line's closing newline,
/// or, when no newline remains, the whole final fragment, intact. An empty
/// trailing fragment yields no chunk at all.
pub open spec fn history_chunks(bytes: Seq<u8>) -> Seq<Seq<u8>>
    decreases bytes.len(),
    via history_chunks_decreases
{
    if bytes.len() == 0 {
        Seq::empty()
    } else {
        let n = chunk_len(bytes) as int;
        let line = if bytes[n - 1] == NEWLINE {
            bytes.subrange(0, n - 1)
        } else {
            bytes.subrange(0, n)
        };
        seq![line] + history_chunks(bytes.skip(n))
    }
}

#[via_fn]
proof fn history_chunks_decreases(bytes: Seq<u8>) {
    if bytes.len() > 0 {
        lemma_chunk_len_bounds(bytes);
    }
}

/// The lines a history byte stream reads back as: its chunks, each decoded
/// leniently.
pub open spec fn history_lines(bytes: Seq<u8>) -> Seq<Seq<char>> {
    history_chunks(bytes).map_values(|c: Seq<u8>| lossy_utf8(c))
}

/// Splits a history file's bytes into its lines.
///
/// The scan walks the raw bytes on the newline delimiter instead of a
/// text-decoding reader, so a line holding an invalid byte sequence comes
/// back with the sequence replaced while every all-ASCII line comes back
/// exactly as its bytes read. An empty stream yields no lines at all, a
/// final fragment without a newline comes back whole, and the end of the
/// stream never adds a phantom empty entry.
pub fn split_history_lines(bytes: &[u8]) -> (lines: Vec<String>)
    ensures
        lines@.len() == history_chunks(bytes@).len(),
        forall|k: int|
            0 <= k < lines@.len() ==> lines@[k]@ == lossy_utf8(
                #[trigger] history_chunks(bytes@)[k],
            ),
        forall|k: int|
            0 <= k < lines@.len() && all_ascii(#[trigger] history_chunks(bytes@)[k])
                ==> lines@[k]@ == ascii_chars(history_chunks(bytes@)[k]),
        lines@.map_values(|s: String| s@) == history_lines(bytes@),
{
    let len = bytes.len();
    let mut lines: Vec<String> = Vec::new();
    let mut pos: usize = 0;
    proof {
        assert(bytes@.skip(0) =~= bytes@);
    }
    while pos < len
        invariant
            len == bytes@.len(),
            pos <= len,
            lines@.len() <= history_chunks(bytes@).len(),
            history_chunks(bytes@).skip(lines@.len() as int) == history_chunks(
                bytes@.skip(pos as int),
            ),
            forall|k: int|
                0 <= k < lines@.len() ==> lines@[k]@ == lossy_utf8(
                    #[trigger] history_chunks(bytes@)[k],
                ),
            forall|k: int|
                0 <= k < lines@.len() && all_ascii(#[trigger] history_chunks(bytes@)[k])
                    ==> lines@[k]@ == ascii_chars(history_chunks(bytes@)[k]),
        decreases len - pos,
    {
        let mut j = pos;
        while j < len && bytes[j] != NEWLINE
            invariant
                len == bytes@.len(),
                pos <= j <= len,
                forall|t: int| pos <= t < j ==> bytes@[t] != NEWLINE,
            decreases len - j,
        {
            j += 1;
        }
        let next = if j < len {
            j + 1
        } else {
            len
        };
        let ghost rest = bytes@.skip(pos as int);
        let ghost cur = bytes@.subrange(pos as int, j as int);
        proof {
            assert(rest.len() == len - pos);
            assert(forall|t: int| 0 <= t < j - pos ==> rest[t] == bytes@[t + pos]);
            if j < len {
                assert(rest[j - pos] == bytes@[j as int]);
            }
            lemma_chunk_len_at(rest, j - pos);
            assert(chunk_len(rest) == next - pos);
            if j < len {
                assert(rest[next - pos - 1] == NEWLINE);
                assert(rest.subrange(0, next - pos - 1) =~= cur);
            } else {
                assert(rest[next - pos - 1] != NEWLINE);
                assert(rest.subrange(0, next - pos) =~= cur);
            }
            assert(rest.skip(next - pos) =~= bytes@.skip(next as int));
            assert(history_chunks(rest) == seq![cur] + history_chunks(bytes@.skip(next as int)));
        }
        let line = lossy_decode(slice_subrange(bytes, pos, j));
        lines.push(line);
        proof {
            let total = history_chunks(bytes@);
            let l = lines@.len() - 1;
            assert(total.skip(l) == seq![cur] + history_chunks(bytes@.skip(next as int)));
            assert(total.skip(l).len() >= 1);
            assert(l + 1 <= total.len());
            assert(total.skip(l)[0] == total[l]);
            assert(total[l] == cur);
            let after = history_chunks(bytes@.skip(next as int));
            assert(total.skip(l).len() == 1 + after.len());
            assert forall|t: int| 0 <= t < after.len() implies total.skip(l + 1)[t] == after[t] by {
                assert(total.skip(l)[t + 1] == total[l + 1 + t]);
                assert(total.skip(l + 1)[t] == total[l + 1 + t]);
                assert(total.skip(l)[t + 1] == (seq![cur] + after)[t + 1]);
            }
            assert(total.skip(l + 1) =~= after);
        }
        pos = next;
    }
    proof {
        assert(bytes@.skip(pos as int) =~= Seq::<u8>::empty());
        assert(history_chunks(bytes@).skip(lines@.len() as int).len() == 0);
        assert(lines@.map_values(|s: String| s@) =~= history_lines(bytes@));
    }
    lines
}

} // verus!
