//! An ordered collection of raw records, with a forward cursor and a bulk
//! loader for newline-delimited JSON.

use vstd::prelude::*;

use crate::data_entry::{decode_spec, DataEntry, DataEntryView};
use crate::errors::Error;
use crate::json_text::parsed_json_bytes;
use crate::lines::{lines_view, split_lines, split_lines_spec};

verus! {

/// The views of a sequence of records, elementwise.
pub open spec fn entries_view(s: Seq<DataEntry>) -> Seq<DataEntryView> {
    s.map_values(|e: DataEntry| e@)
}

/// The first `count` lines when `count` is non-negative, all of them when it
/// is negative.
pub open spec fn take_limit(lines: Seq<Seq<u8>>, count: int) -> Seq<Seq<u8>> {
    if count < 0 || count > lines.len() {
        lines
    } else {
        lines.take(count)
    }
}

/// Whether one line parses as JSON and decodes as a record.
pub open spec fn line_ok(l: Seq<u8>) -> bool {
    match parsed_json_bytes(l) {
        Some(v) => decode_spec(v) is Ok,
        None => false,
    }
}

/// The record a good line decodes to.
pub open spec fn line_entry(l: Seq<u8>) -> DataEntryView {
    decode_spec(parsed_json_bytes(l)->Some_0)->Ok_0
}

/// What a load failure must look like: some line failed, every line before
/// it was good, and the error is that line's own — a parse error when the
/// line is not JSON, the schema error of its decode otherwise.
pub open spec fn load_failure(lines: Seq<Seq<u8>>, e: Error) -> bool {
    exists|k: int|
        0 <= k < lines.len() && !line_ok(#[trigger] lines[k]) && (forall|j: int|
            0 <= j < k ==> line_ok(#[trigger] lines[j])) && (match e {
            Error::Parse(_) => parsed_json_bytes(lines[k]) is None,
            Error::Schema(se) => (match parsed_json_bytes(lines[k]) {
                Some(v) => decode_spec(v) == Err::<DataEntryView, _>(se),
                None => false,
            }),
            _ => false,
        })
}

/// Sequence accessors, for any record kind: after `push(a)`, `push(b)`,
/// `push(c)` on an empty collection, `get(0)` is `a`, `get(1)` is `b`,
/// `get(2)` is `c` and the count is 3; after removing the last two records,
/// one record is left and it is `a`.  Stated over the collections' views,
/// which `push`, `pop`, `get` and `len` are contracted against.
pub proof fn lemma_sequence_accessors<T>(s: Seq<T>, a: T, b: T, c: T)
    requires
        s.len() == 0,
    ensures
        s.push(a).push(b).push(c).len() == 3,
        s.push(a).push(b).push(c)[0] == a,
        s.push(a).push(b).push(c)[1] == b,
        s.push(a).push(b).push(c)[2] == c,
        s.push(a).push(b).push(c).drop_last().drop_last().len() == 1,
        s.push(a).push(b).push(c).drop_last().drop_last()[0] == a,
{
    assert(s.push(a).push(b).push(c).drop_last() =~= s.push(a).push(b));
    assert(s.push(a).push(b).drop_last() =~= s.push(a));
}

/// Multiple raw records in insertion order, with a cursor for forward
/// iteration.
#[derive(Debug, PartialEq)]
pub struct RawDataEntries {
    idx: usize,
    data: Vec<DataEntry>,
}

impl View for RawDataEntries {
    type V = Seq<DataEntryView>;

    closed spec fn view(&self) -> Seq<DataEntryView> {
        entries_view(self.data@)
    }
}

impl Clone for RawDataEntries {
    /// A clone holds the same records and leaves both cursors where they
    /// were, so iterating the clone does not disturb the original.
    fn clone(&self) -> (res: Self)
        ensures
            res@ == self@,
            res.cursor() == self.cursor(),
    {
        let mut data: Vec<DataEntry> = Vec::new();
        let n: usize = self.data.len();
        let mut i: usize = 0;
        while i < n
            invariant
                n == self.data@.len(),
                0 <= i <= n,
                data@.len() == i,
                forall|j: int| 0 <= j < i ==> (#[trigger] data@[j])@ == self.data@[j]@,
            decreases n - i,
        {
            data.push(self.data[i].clone());
            i += 1;
        }
        let res = RawDataEntries { idx: self.idx, data };
        proof {
            assert(res@ =~= self@);
        }
        res
    }
}

impl RawDataEntries {
    /// Where the forward cursor stands.
    pub closed spec fn cursor(&self) -> int {
        self.idx as int
    }

    /// Creates an empty collection with the cursor at the start.
    pub fn new() -> (r: RawDataEntries)
        ensures
            r@ == Seq::<DataEntryView>::empty(),
            r.cursor() == 0,
    {
        let r = RawDataEntries { idx: 0, data: Vec::new() };
        proof {
            assert(r@ =~= Seq::<DataEntryView>::empty());
        }
        r
    }

    /// The number of records held.
    pub fn len(&self) -> (r: usize)
        ensures
            r == self@.len(),
    {
        self.data.len()
    }

    /// Whether no record is held.
    pub fn is_empty(&self) -> (r: bool)
        ensures
            r == (self@.len() == 0),
    {
        self.data.len() == 0
    }

    /// Appends one record at the end.
    pub fn push(&mut self, entry: DataEntry)
        ensures
            final(self)@ == old(self)@.push(entry@),
            final(self).cursor() == old(self).cursor(),
    {
        self.data.push(entry);
        proof {
            assert(self@ =~= old(self)@.push(entry@));
        }
    }

    /// Removes and returns the most recently appended record, or `None` when
    /// the collection is empty.
    pub fn pop(&mut self) -> (r: Option<DataEntry>)
        ensures
            old(self)@.len() > 0 ==> r is Some && (r->Some_0)@ == old(self)@.last() && final(self)@ == old(self)@.drop_last(),
            old(self)@.len() == 0 ==> r is None && final(self)@ == old(self)@,
            final(self).cursor() == old(self).cursor(),
    {
        let r = self.data.pop();
        proof {
            if old(self).data@.len() > 0 {
                assert(self@ =~= old(self)@.drop_last());
            }
        }
        r
    }

    /// Appends every record of the slice, in order.
    pub fn extend_from_slice(&mut self, entries: &[DataEntry])
        ensures
            final(self)@ == old(self)@ + entries_view(entries@),
            final(self).cursor() == old(self).cursor(),
    {
        self.data.extend_from_slice(entries);
        proof {
            assert forall|i: int|
                0 <= i < self.data@.len() implies (#[trigger] self.data@[i])@ == (old(self)@ + entries_view(entries@))[i] by {
                if i >= old(self).data@.len() {
                    assert(cloned::<DataEntry>(
                        entries@[i - old(self).data@.len()],
                        self.data@[i],
                    ));
                }
            }
            assert(self@ =~= old(self)@ + entries_view(entries@));
        }
    }

    /// The record at `idx`, or a bounds failure when `idx` is not below the
    /// length.
    pub fn get(&self, idx: usize) -> (r: Result<&DataEntry, Error>)
        ensures
            idx < self@.len() ==> r is Ok && (r->Ok_0)@ == self@[idx as int],
            idx >= self@.len() ==> r == Err::<&DataEntry, Error>(
                Error::Bounds(idx, self@.len() as usize),
            ),
    {
        if idx < self.data.len() {
            Ok(&self.data[idx])
        } else {
            Err(Error::Bounds(idx, self.data.len()))
        }
    }

    /// The record under the cursor, advancing the cursor past it; `None`
    /// once every record has been yielded.  The records themselves are not
    /// changed.
    pub fn next(&mut self) -> (r: Option<DataEntry>)
        ensures
            final(self)@ == old(self)@,
            old(self).cursor() < old(self)@.len() ==> r is Some && (r->Some_0)@ == old(self)@[old(self).cursor()] && final(self).cursor() == old(self).cursor() + 1,
            old(self).cursor() >= old(self)@.len() ==> r is None && final(self).cursor() == old(self).cursor(),
    {
        if self.idx < self.data.len() {
            let item = self.data[self.idx].clone();
            self.idx += 1;
            Some(item)
        } else {
            None
        }
    }

    /// Loads records from the bytes of a newline-delimited JSON file,
    /// decoding each line in order and stopping after `count` records when
    /// `count` is non-negative; the first bad line aborts the whole load
    /// with that line's own failure.
    pub fn from_tifu_dataset_bytes(bytes: &[u8], count: i32) -> (r: Result<RawDataEntries, Error>)
        ensures
            ({
                let lines = take_limit(split_lines_spec(bytes@), count as int);
                &&& (r is Ok <==> (forall|i: int| 0 <= i < lines.len() ==> line_ok(
                    #[trigger] lines[i],
                )))
                &&& r is Ok ==> (r->Ok_0)@.len() == lines.len() && (forall|i: int|
                    0 <= i < lines.len() ==> (r->Ok_0)@[i] == line_entry(#[trigger] lines[i]))
                    && (r->Ok_0).cursor() == 0
                &&& r is Err ==> load_failure(lines, r->Err_0)
            }),
    {
        let all_lines = split_lines(bytes);
        let limit: usize = if count < 0 {
            all_lines.len()
        } else if (count as usize) < all_lines.len() {
            count as usize
        } else {
            all_lines.len()
        };
        let ghost lines = take_limit(split_lines_spec(bytes@), count as int);
        proof {
            assert(lines =~= lines_view(all_lines@).take(limit as int));
        }
        let mut c = RawDataEntries::new();
        let mut i: usize = 0;
        while i < limit
            invariant
                limit <= all_lines@.len(),
                0 <= i <= limit,
                lines == take_limit(split_lines_spec(bytes@), count as int),
                lines =~= lines_view(all_lines@).take(limit as int),
                lines.len() == limit,
                c@.len() == i,
                c.cursor() == 0,
                forall|j: int| 0 <= j < i ==> line_ok(#[trigger] lines[j]),
                forall|j: int| 0 <= j < i ==> c@[j] == line_entry(#[trigger] lines[j]),
            decreases limit - i,
        {
            proof {
                assert(lines[i as int] == all_lines@[i as int]@);
            }
            match DataEntry::from_json_bytes(all_lines[i].as_slice()) {
                Ok(e) => {
                    c.push(e);
                },
                Err(err) => {
                    return Err(err);
                },
            }
            i += 1;
        }
        Ok(c)
    }

    /// Loads every record from the bytes of a newline-delimited JSON file.
    pub fn from_tifu_dataset_bytes_all(bytes: &[u8]) -> (r: Result<RawDataEntries, Error>)
        ensures
            ({
                let lines = split_lines_spec(bytes@);
                &&& (r is Ok <==> (forall|i: int| 0 <= i < lines.len() ==> line_ok(
                    #[trigger] lines[i],
                )))
                &&& r is Ok ==> (r->Ok_0)@.len() == lines.len() && (forall|i: int|
                    0 <= i < lines.len() ==> (r->Ok_0)@[i] == line_entry(#[trigger] lines[i]))
                    && (r->Ok_0).cursor() == 0
                &&& r is Err ==> load_failure(lines, r->Err_0)
            }),
    {
        let r = RawDataEntries::from_tifu_dataset_bytes(bytes, -1);
        proof {
            assert(take_limit(split_lines_spec(bytes@), -1) == split_lines_spec(bytes@));
        }
        r
    }
}

} // verus!
