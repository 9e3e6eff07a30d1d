//! Splitting a text file's bytes into lines.
//!
//! Lines are separated by `\n`; a separator-terminated line also sheds one
//! trailing `\r`, so both LF and CRLF endings are handled.  Text after the
//! last separator is a final line of its own, and a trailing separator does
//! not open an empty last line.

use vstd::prelude::*;

verus! {

/// The line feed byte.
pub const NL: u8 = 10;

/// The carriage return byte.
pub const CR: u8 = 13;

/// The index of the first line feed in `b`, if any.
pub open spec fn first_newline(b: Seq<u8>) -> Option<int>
    decreases b.len(),
{
    if b.len() == 0 {
        None
    } else if b[0] == NL {
        Some(0)
    } else {
        match first_newline(b.drop_first()) {
            None => None,
            Some(i) => Some(i + 1),
        }
    }
}

/// `first_newline(b)` names the first line feed of `b` exactly.
pub proof fn lemma_first_newline(b: Seq<u8>)
    ensures
        match first_newline(b) {
            None => forall|i: int| 0 <= i < b.len() ==> b[i] != NL,
            Some(i) => 0 <= i < b.len() && b[i] == NL && forall|j: int| 0 <= j < i ==> b[j] != NL,
        },
    decreases b.len(),
{
    if b.len() > 0 && b[0] != NL {
        let d = b.drop_first();
        lemma_first_newline(d);
        match first_newline(d) {
            None => {
                assert forall|i: int| 0 <= i < b.len() implies b[i] != NL by {
                    if i > 0 {
                        assert(d[i - 1] == b[i]);
                    }
                }
            },
            Some(i) => {
                assert(d[i] == b[i + 1]);
                assert forall|j: int| 0 <= j < i + 1 implies b[j] != NL by {
                    if j > 0 {
                        assert(d[j - 1] == b[j]);
                    }
                }
            },
        }
    }
}

/// A line with one trailing carriage return shed.
pub open spec fn strip_cr(s: Seq<u8>) -> Seq<u8> {
    if s.len() > 0 && s[s.len() - 1] == CR {
        s.drop_last()
    } else {
        s
    }
}

/// The lines of `b`: split at each line feed, shedding one carriage return
/// before it; what follows the last line feed is a final line unless it is
/// empty.
pub open spec fn split_lines_spec(b: Seq<u8>) -> Seq<Seq<u8>>
    decreases b.len(),
    via split_lines_spec_decreases
{
    if b.len() == 0 {
        Seq::empty()
    } else {
        match first_newline(b) {
            None => seq![b],
            Some(i) => seq![strip_cr(b.take(i))] + split_lines_spec(b.skip(i + 1)),
        }
    }
}

#[via_fn]
proof fn split_lines_spec_decreases(b: Seq<u8>) {
    if b.len() > 0 {
        lemma_first_newline(b);
    }
}

/// The views of a vector of byte lines, elementwise.
pub open spec fn lines_view(v: Seq<Vec<u8>>) -> Seq<Seq<u8>> {
    v.map_values(|l: Vec<u8>| l@)
}

/// Splits a byte string into its lines, exactly as [`split_lines_spec`]
/// says.
pub fn split_lines(bytes: &[u8]) -> (r: Vec<Vec<u8>>)
    ensures
        lines_view(r@) == split_lines_spec(bytes@),
{
    let n: usize = bytes.len();
    let mut out: Vec<Vec<u8>> = Vec::new();
    let mut start: usize = 0;
    proof {
        assert(lines_view(out@) =~= Seq::<Seq<u8>>::empty());
        assert(bytes@.skip(0) =~= bytes@);
    }
    while start < n
        invariant
            n == bytes@.len(),
            0 <= start <= n,
            split_lines_spec(bytes@) == lines_view(out@) + split_lines_spec(bytes@.skip(
                start as int,
            )),
        decreases n - start,
    {
        let ghost tail = bytes@.skip(start as int);
        let mut j: usize = start;
        while j < n && *vstd::slice::slice_index_get(bytes, j) != NL
            invariant
                n == bytes@.len(),
                start <= j <= n,
                forall|k: int| start <= k < j ==> bytes@[k] != NL,
            decreases n - j,
        {
            j += 1;
        }
        proof {
            lemma_first_newline(tail);
            assert(tail.len() == n - start);
            assert(forall|p: int| 0 <= p < tail.len() ==> tail[p] == bytes@[start + p]);
        }
        if j == n {
            let line = vstd::slice::slice_to_vec(vstd::slice::slice_subrange(bytes, start, n));
            proof {
                assert(first_newline(tail) is None) by {
                    if first_newline(tail) is Some {
                        let i = first_newline(tail)->Some_0;
                        assert(tail[i] == NL);
                        assert(bytes@[start + i] != NL);
                    }
                }
                assert(line@ == tail);
                assert(split_lines_spec(tail) == seq![tail]);
                assert(lines_view(out@.push(line)) =~= lines_view(out@) + seq![line@]);
                assert(lines_view(out@) + seq![tail] + Seq::<Seq<u8>>::empty() =~= lines_view(
                    out@,
                ) + seq![tail]);
                assert(bytes@.skip(n as int) =~= Seq::<u8>::empty());
            }
            out.push(line);
            start = n;
        } else {
            let end: usize = if j > start && *vstd::slice::slice_index_get(bytes, j - 1) == CR {
                j - 1
            } else {
                j
            };
            let line = vstd::slice::slice_to_vec(vstd::slice::slice_subrange(bytes, start, end));
            proof {
                let fi = j - start;
                assert(tail[fi as int] == NL);
                assert(first_newline(tail) == Some(fi as int)) by {
                    match first_newline(tail) {
                        None => {
                            assert(tail[fi as int] != NL);
                        },
                        Some(i) => {
                            if i < fi {
                                assert(bytes@[start + i] != NL);
                                assert(tail[i] == NL);
                            }
                            if i > fi {
                                assert(tail[fi as int] != NL);
                            }
                        },
                    }
                }
                assert(tail.take(fi as int) =~= bytes@.subrange(start as int, j as int));
                assert(line@ =~= strip_cr(tail.take(fi as int)));
                assert(tail.skip(fi + 1) =~= bytes@.skip(j + 1));
                assert(split_lines_spec(tail) == seq![line@] + split_lines_spec(
                    bytes@.skip(j + 1),
                ));
                assert(lines_view(out@.push(line)) =~= lines_view(out@) + seq![line@]);
                assert(lines_view(out@) + (seq![line@] + split_lines_spec(bytes@.skip(j + 1)))
                    =~= (lines_view(out@) + seq![line@]) + split_lines_spec(bytes@.skip(j + 1)));
            }
            out.push(line);
            start = j + 1;
        }
    }
    proof {
        assert(bytes@.skip(n as int) =~= Seq::<u8>::empty());
        assert(lines_view(out@) + Seq::<Seq<u8>>::empty() =~= lines_view(out@));
    }
    out
}

} // verus!
