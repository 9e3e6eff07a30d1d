//! The "short" projection of a raw record: the trimmed title as summary, the
//! body without its TL;DR as source.

use vstd::prelude::*;

use crate::data_entry::{clone_strings, strings_view, DataEntry, DataEntryView};

verus! {

/// An entry of the short summarization dataset: summary/source pairs drawn
/// from the trimmed title.
#[derive(Debug, PartialEq)]
pub struct ShortDataEntry {
    pub id: String,
    pub summary: String,
    pub summary_tokenized: Vec<String>,
    pub source: String,
    pub source_tokenized: Vec<String>,
}

/// The mathematical shape of a [`ShortDataEntry`].
#[verifier::ext_equal]
pub ghost struct ShortDataEntryView {
    pub id: Seq<char>,
    pub summary: Seq<char>,
    pub summary_tokenized: Seq<Seq<char>>,
    pub source: Seq<char>,
    pub source_tokenized: Seq<Seq<char>>,
}

impl View for ShortDataEntry {
    type V = ShortDataEntryView;

    open spec fn view(&self) -> ShortDataEntryView {
        ShortDataEntryView {
            id: self.id@,
            summary: self.summary@,
            summary_tokenized: strings_view(self.summary_tokenized@),
            source: self.source@,
            source_tokenized: strings_view(self.source_tokenized@),
        }
    }
}

impl Clone for ShortDataEntry {
    /// A clone has the same view as the original.
    fn clone(&self) -> (res: Self)
        ensures
            res@ == self@,
    {
        let res = ShortDataEntry {
            id: self.id.clone(),
            summary: self.summary.clone(),
            summary_tokenized: clone_strings(&self.summary_tokenized),
            source: self.source.clone(),
            source_tokenized: clone_strings(&self.source_tokenized),
        };
        proof {
            assert(res@ =~= self@);
        }
        res
    }
}

/// The view of a freshly created short entry: every field empty.
pub open spec fn empty_short_entry() -> ShortDataEntryView {
    ShortDataEntryView {
        id: Seq::empty(),
        summary: Seq::empty(),
        summary_tokenized: Seq::empty(),
        source: Seq::empty(),
        source_tokenized: Seq::empty(),
    }
}

/// How a raw record projects to a short entry: the identifier is kept, the
/// trimmed title becomes the summary and the body without its TL;DR becomes
/// the source, each with its tokenized variant.
pub open spec fn short_from_raw(r: DataEntryView) -> ShortDataEntryView {
    ShortDataEntryView {
        id: r.id,
        summary: r.trimmed_title,
        summary_tokenized: r.trimmed_title_tokenized,
        source: r.selftext_without_tldr,
        source_tokenized: r.selftext_without_tldr_tokenized,
    }
}

impl ShortDataEntry {
    /// Creates a short entry with every field at its empty value.
    pub fn new() -> (r: ShortDataEntry)
        ensures
            r@ == empty_short_entry(),
    {
        let r = ShortDataEntry {
            id: String::new(),
            summary: String::new(),
            summary_tokenized: Vec::new(),
            source: String::new(),
            source_tokenized: Vec::new(),
        };
        proof {
            assert(strings_view(Seq::<String>::empty()) =~= Seq::<Seq<char>>::empty());
            assert(r@ =~= empty_short_entry());
        }
        r
    }

    /// Projects a raw record to a short entry, exactly as [`short_from_raw`]
    /// says: the identifier, the trimmed title and the body without its
    /// TL;DR are carried over unchanged.
    pub fn from_raw(rde: &DataEntry) -> (r: ShortDataEntry)
        ensures
            r@ == short_from_raw(rde@),
    {
        let r = ShortDataEntry {
            id: rde.id.clone(),
            summary: rde.trimmed_title.clone(),
            summary_tokenized: clone_strings(&rde.trimmed_title_tokenized),
            source: rde.selftext_without_tldr.clone(),
            source_tokenized: clone_strings(&rde.selftext_without_tldr_tokenized),
        };
        proof {
            assert(r@ =~= short_from_raw(rde@));
        }
        r
    }
}

} // verus!
