//! The "long" projection of a raw record: the true TL;DR as summary, the
//! body without its TL;DR as source.

use vstd::prelude::*;

use crate::data_entry::{
    clone_opt_string, clone_opt_strings, clone_strings, opt_str_view, opt_strings_view,
    strings_view, DataEntry, DataEntryView,
};

verus! {

/// An entry of the long summarization dataset: summary/source pairs drawn
/// from the post's own TL;DR, which may be absent.
#[derive(Debug, PartialEq)]
pub struct LongDataEntry {
    pub id: String,
    pub summary: Option<String>,
    pub summary_tokenized: Option<Vec<String>>,
    pub source: String,
    pub source_tokenized: Vec<String>,
}

/// The mathematical shape of a [`LongDataEntry`].
#[verifier::ext_equal]
pub ghost struct LongDataEntryView {
    pub id: Seq<char>,
    pub summary: Option<Seq<char>>,
    pub summary_tokenized: Option<Seq<Seq<char>>>,
    pub source: Seq<char>,
    pub source_tokenized: Seq<Seq<char>>,
}

impl View for LongDataEntry {
    type V = LongDataEntryView;

    open spec fn view(&self) -> LongDataEntryView {
        LongDataEntryView {
            id: self.id@,
            summary: opt_str_view(self.summary),
            summary_tokenized: opt_strings_view(self.summary_tokenized),
            source: self.source@,
            source_tokenized: strings_view(self.source_tokenized@),
        }
    }
}

impl Clone for LongDataEntry {
    /// A clone has the same view as the original.
    fn clone(&self) -> (res: Self)
        ensures
            res@ == self@,
    {
        let res = LongDataEntry {
            id: self.id.clone(),
            summary: clone_opt_string(&self.summary),
            summary_tokenized: clone_opt_strings(&self.summary_tokenized),
            source: self.source.clone(),
            source_tokenized: clone_strings(&self.source_tokenized),
        };
        proof {
            assert(res@ =~= self@);
        }
        res
    }
}

/// The view of a freshly created long entry: every field empty or unset.
pub open spec fn empty_long_entry() -> LongDataEntryView {
    LongDataEntryView {
        id: Seq::empty(),
        summary: None,
        summary_tokenized: None,
        source: Seq::empty(),
        source_tokenized: Seq::empty(),
    }
}

/// How a raw record projects to a long entry: the identifier is kept, the
/// optional TL;DR becomes the summary and the body without its TL;DR becomes
/// the source, each with its tokenized variant.
pub open spec fn long_from_raw(r: DataEntryView) -> LongDataEntryView {
    LongDataEntryView {
        id: r.id,
        summary: r.tldr,
        summary_tokenized: r.tldr_tokenized,
        source: r.selftext_without_tldr,
        source_tokenized: r.selftext_without_tldr_tokenized,
    }
}

impl LongDataEntry {
    /// Creates a long entry with every field at its empty value.
    pub fn new() -> (r: LongDataEntry)
        ensures
            r@ == empty_long_entry(),
    {
        let r = LongDataEntry {
            id: String::new(),
            summary: None,
            summary_tokenized: None,
            source: String::new(),
            source_tokenized: Vec::new(),
        };
        proof {
            assert(strings_view(Seq::<String>::empty()) =~= Seq::<Seq<char>>::empty());
            assert(r@ =~= empty_long_entry());
        }
        r
    }

    /// Projects a raw record to a long entry, exactly as [`long_from_raw`]
    /// says: the identifier, the optional TL;DR and the body without its
    /// TL;DR are carried over unchanged.
    pub fn from_raw(rde: &DataEntry) -> (r: LongDataEntry)
        ensures
            r@ == long_from_raw(rde@),
    {
        let r = LongDataEntry {
            id: rde.id.clone(),
            summary: clone_opt_string(&rde.tldr),
            summary_tokenized: clone_opt_strings(&rde.tldr_tokenized),
            source: rde.selftext_without_tldr.clone(),
            source_tokenized: clone_strings(&rde.selftext_without_tldr_tokenized),
        };
        proof {
            assert(r@ =~= long_from_raw(rde@));
        }
        r
    }
}

} // verus!
