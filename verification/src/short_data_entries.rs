//! An ordered collection of short entries, with a forward cursor and a bulk
//! loader that decodes raw records from newline-delimited JSON and projects
//! each one.

use vstd::prelude::*;

use crate::data_entry::DataEntry;
use crate::errors::Error;
use crate::lines::{lines_view, split_lines, split_lines_spec};
use crate::raw_data_entries::{line_entry, line_ok, load_failure, take_limit};
use crate::short_data_entry::{ShortDataEntry, ShortDataEntryView, short_from_raw};

verus! {

/// The views of a sequence of short entries, elementwise.
pub open spec fn short_entries_view(s: Seq<ShortDataEntry>) -> Seq<ShortDataEntryView> {
    s.map_values(|e: ShortDataEntry| e@)
}

/// Multiple short entries in insertion order, with a cursor for forward
/// iteration.
#[derive(Debug, PartialEq)]
pub struct ShortDataEntries {
    idx: usize,
    data: Vec<ShortDataEntry>,
}

impl View for ShortDataEntries {
    type V = Seq<ShortDataEntryView>;

    closed spec fn view(&self) -> Seq<ShortDataEntryView> {
        short_entries_view(self.data@)
    }
}

impl Clone for ShortDataEntries {
    /// A clone holds the same records and leaves both cursors where they
    /// were, so iterating the clone does not disturb the original.
    fn clone(&self) -> (res: Self)
        ensures
            res@ == self@,
            res.cursor() == self.cursor(),
    {
        let mut data: Vec<ShortDataEntry> = Vec::new();
        let n: usize = self.data.len();
        let mut i: usize = 0;
        while i < n
            invariant
                n == self.data@.len(),
                0 <= i <= n,
                data@.len() == i,
                forall|j: int| 0 <= j < i ==> (#[trigger] data@[j])@ == self.data@[j]@,
            decreases n - i,
        {
            data.push(self.data[i].clone());
            i += 1;
        }
        let res = ShortDataEntries { idx: self.idx, data };
        proof {
            assert(res@ =~= self@);
        }
        res
    }
}

impl ShortDataEntries {
    /// Where the forward cursor stands.
    pub closed spec fn cursor(&self) -> int {
        self.idx as int
    }

    /// Creates an empty collection with the cursor at the start.
    pub fn new() -> (r: ShortDataEntries)
        ensures
            r@ == Seq::<ShortDataEntryView>::empty(),
            r.cursor() == 0,
    {
        let r = ShortDataEntries { idx: 0, data: Vec::new() };
        proof {
            assert(r@ =~= Seq::<ShortDataEntryView>::empty());
        }
        r
    }

    /// The number of records held.
    pub fn len(&self) -> (r: usize)
        ensures
            r == self@.len(),
    {
        self.data.len()
    }

    /// Whether no record is held.
    pub fn is_empty(&self) -> (r: bool)
        ensures
            r == (self@.len() == 0),
    {
        self.data.len() == 0
    }

    /// Appends one record at the end.
    pub fn push(&mut self, entry: ShortDataEntry)
        ensures
            final(self)@ == old(self)@.push(entry@),
            final(self).cursor() == old(self).cursor(),
    {
        self.data.push(entry);
        proof {
            assert(self@ =~= old(self)@.push(entry@));
        }
    }

    /// Removes and returns the most recently appended record, or `None` when
    /// the collection is empty.
    pub fn pop(&mut self) -> (r: Option<ShortDataEntry>)
        ensures
            old(self)@.len() > 0 ==> r is Some && (r->Some_0)@ == old(self)@.last() && final(self)@ == old(self)@.drop_last(),
            old(self)@.len() == 0 ==> r is None && final(self)@ == old(self)@,
            final(self).cursor() == old(self).cursor(),
    {
        let r = self.data.pop();
        proof {
            if old(self).data@.len() > 0 {
                assert(self@ =~= old(self)@.drop_last());
            }
        }
        r
    }

    /// Appends every record of the slice, in order.
    pub fn extend_from_slice(&mut self, entries: &[ShortDataEntry])
        ensures
            final(self)@ == old(self)@ + short_entries_view(entries@),
            final(self).cursor() == old(self).cursor(),
    {
        self.data.extend_from_slice(entries);
        proof {
            assert forall|i: int|
                0 <= i < self.data@.len() implies (#[trigger] self.data@[i])@ == (old(self)@ + short_entries_view(entries@))[i] by {
                if i >= old(self).data@.len() {
                    assert(cloned::<ShortDataEntry>(
                        entries@[i - old(self).data@.len()],
                        self.data@[i],
                    ));
                }
            }
            assert(self@ =~= old(self)@ + short_entries_view(entries@));
        }
    }

    /// The record at `idx`, or a bounds failure when `idx` is not below the
    /// length.
    pub fn get(&self, idx: usize) -> (r: Result<&ShortDataEntry, Error>)
        ensures
            idx < self@.len() ==> r is Ok && (r->Ok_0)@ == self@[idx as int],
            idx >= self@.len() ==> r == Err::<&ShortDataEntry, Error>(
                Error::Bounds(idx, self@.len() as usize),
            ),
    {
        if idx < self.data.len() {
            Ok(&self.data[idx])
        } else {
            Err(Error::Bounds(idx, self.data.len()))
        }
    }

    /// The record under the cursor, advancing the cursor past it; `None`
    /// once every record has been yielded.  The records themselves are not
    /// changed.
    pub fn next(&mut self) -> (r: Option<ShortDataEntry>)
        ensures
            final(self)@ == old(self)@,
            old(self).cursor() < old(self)@.len() ==> r is Some && (r->Some_0)@ == old(self)@[old(self).cursor()] && final(self).cursor() == old(self).cursor() + 1,
            old(self).cursor() >= old(self)@.len() ==> r is None && final(self).cursor() == old(self).cursor(),
    {
        if self.idx < self.data.len() {
            let item = self.data[self.idx].clone();
            self.idx += 1;
            Some(item)
        } else {
            None
        }
    }

    /// Loads short entries from the bytes of a newline-delimited JSON file,
    /// decoding each line in order and stopping after `count` records when
    /// `count` is non-negative; the first bad line aborts the whole load
    /// with that line's own failure.
    pub fn from_tifu_dataset_bytes(bytes: &[u8], count: i32) -> (r: Result<ShortDataEntries, Error>)
        ensures
            ({
                let lines = take_limit(split_lines_spec(bytes@), count as int);
                &&& (r is Ok <==> (forall|i: int| 0 <= i < lines.len() ==> line_ok(
                    #[trigger] lines[i],
                )))
                &&& r is Ok ==> (r->Ok_0)@.len() == lines.len() && (forall|i: int|
                    0 <= i < lines.len() ==> (r->Ok_0)@[i] == short_from_raw(line_entry(#[trigger] lines[i])))
                    && (r->Ok_0).cursor() == 0
                &&& r is Err ==> load_failure(lines, r->Err_0)
            }),
    {
        let all_lines = split_lines(bytes);
        let limit: usize = if count < 0 {
            all_lines.len()
        } else if (count as usize) < all_lines.len() {
            count as usize
        } else {
            all_lines.len()
        };
        let ghost lines = take_limit(split_lines_spec(bytes@), count as int);
        proof {
            assert(lines =~= lines_view(all_lines@).take(limit as int));
        }
        let mut c = ShortDataEntries::new();
        let mut i: usize = 0;
        while i < limit
            invariant
                limit <= all_lines@.len(),
                0 <= i <= limit,
                lines == take_limit(split_lines_spec(bytes@), count as int),
                lines =~= lines_view(all_lines@).take(limit as int),
                lines.len() == limit,
                c@.len() == i,
                c.cursor() == 0,
                forall|j: int| 0 <= j < i ==> line_ok(#[trigger] lines[j]),
                forall|j: int| 0 <= j < i ==> c@[j] == short_from_raw(line_entry(#[trigger] lines[j])),
            decreases limit - i,
        {
            proof {
                assert(lines[i as int] == all_lines@[i as int]@);
            }
            match DataEntry::from_json_bytes(all_lines[i].as_slice()) {
                Ok(e) => {
                    c.push(ShortDataEntry::from_raw(&e));
                },
                Err(err) => {
                    return Err(err);
                },
            }
            i += 1;
        }
        Ok(c)
    }

    /// Loads every short entry from the bytes of a newline-delimited JSON file.
    pub fn from_tifu_dataset_bytes_all(bytes: &[u8]) -> (r: Result<ShortDataEntries, Error>)
        ensures
            ({
                let lines = split_lines_spec(bytes@);
                &&& (r is Ok <==> (forall|i: int| 0 <= i < lines.len() ==> line_ok(
                    #[trigger] lines[i],
                )))
                &&& r is Ok ==> (r->Ok_0)@.len() == lines.len() && (forall|i: int|
                    0 <= i < lines.len() ==> (r->Ok_0)@[i] == short_from_raw(line_entry(#[trigger] lines[i])))
                    && (r->Ok_0).cursor() == 0
                &&& r is Err ==> load_failure(lines, r->Err_0)
            }),
    {
        let r = ShortDataEntries::from_tifu_dataset_bytes(bytes, -1);
        proof {
            assert(take_limit(split_lines_spec(bytes@), -1) == split_lines_spec(bytes@));
        }
        r
    }
}

} // verus!
