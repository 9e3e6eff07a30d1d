//! The raw dataset record and its codec.
//!
//! `DataEntry` is the full, validated decode of one dataset line.  The
//! decoder ([`DataEntry::from_json_value`]) checks every field of a parsed
//! JSON document against the schema — required scalar fields must be present
//! with the right type, tokenized array fields must hold strings, optional
//! fields may be `null` — and its whole behaviour is captured by the spec
//! function [`decode_spec`].  Encoding goes the other way: the record is laid
//! out as a JSON value ([`entry_json`]) and rendered to text.

use vstd::prelude::*;

use crate::errors::{Error, FieldId, SchemaError};
use crate::json::{obj_get, JsonNum, JsonValue, JsonValueView};
use crate::json_text::{
    parse_json_bytes, parse_json_str, parsed_json_bytes, parsed_json_str, render_json_bytes,
    render_json_string, rendered_bytes, rendered_str,
};

verus! {

/// A raw dataset record: one post of the dataset, with its tokenized
/// variants.
///
/// The two numeric fields that the dataset stores as floating-point numbers
/// (`created_utc`, `upvote_ratio`) hold the JSON number exactly as it
/// appeared, so nothing is rounded; any JSON number is accepted for them.
#[derive(Debug, PartialEq)]
pub struct DataEntry {
    pub title_tokenized: Vec<String>,
    pub permalink: String,
    pub title: String,
    pub url: String,
    pub num_comments: u64,
    pub tldr: Option<String>,
    pub created_utc: JsonNum,
    pub trimmed_title_tokenized: Vec<String>,
    pub id: String,
    pub selftext_html: Option<String>,
    pub score: u64,
    pub upvote_ratio: JsonNum,
    pub tldr_tokenized: Option<Vec<String>>,
    pub selftext: String,
    pub trimmed_title: String,
    pub selftext_without_tldr_tokenized: Vec<String>,
    pub ups: u64,
    pub selftext_without_tldr: String,
}

/// The mathematical shape of a [`DataEntry`]: strings as `Seq<char>`, string
/// vectors as `Seq<Seq<char>>`.
#[verifier::ext_equal]
pub ghost struct DataEntryView {
    pub title_tokenized: Seq<Seq<char>>,
    pub permalink: Seq<char>,
    pub title: Seq<char>,
    pub url: Seq<char>,
    pub num_comments: u64,
    pub tldr: Option<Seq<char>>,
    pub created_utc: JsonNum,
    pub trimmed_title_tokenized: Seq<Seq<char>>,
    pub id: Seq<char>,
    pub selftext_html: Option<Seq<char>>,
    pub score: u64,
    pub upvote_ratio: JsonNum,
    pub tldr_tokenized: Option<Seq<Seq<char>>>,
    pub selftext: Seq<char>,
    pub trimmed_title: Seq<char>,
    pub selftext_without_tldr_tokenized: Seq<Seq<char>>,
    pub ups: u64,
    pub selftext_without_tldr: Seq<char>,
}

/// The views of a sequence of strings, elementwise.
pub open spec fn strings_view(s: Seq<String>) -> Seq<Seq<char>> {
    s.map_values(|x: String| x@)
}

/// The view of an optional string.
pub open spec fn opt_str_view(o: Option<String>) -> Option<Seq<char>> {
    match o {
        Some(s) => Some(s@),
        None => None,
    }
}

/// The view of an optional sequence of strings.
pub open spec fn opt_strings_view(o: Option<Vec<String>>) -> Option<Seq<Seq<char>>> {
    match o {
        Some(v) => Some(strings_view(v@)),
        None => None,
    }
}

impl View for DataEntry {
    type V = DataEntryView;

    open spec fn view(&self) -> DataEntryView {
        DataEntryView {
            title_tokenized: strings_view(self.title_tokenized@),
            permalink: self.permalink@,
            title: self.title@,
            url: self.url@,
            num_comments: self.num_comments,
            tldr: opt_str_view(self.tldr),
            created_utc: self.created_utc,
            trimmed_title_tokenized: strings_view(self.trimmed_title_tokenized@),
            id: self.id@,
            selftext_html: opt_str_view(self.selftext_html),
            score: self.score,
            upvote_ratio: self.upvote_ratio,
            tldr_tokenized: opt_strings_view(self.tldr_tokenized),
            selftext: self.selftext@,
            trimmed_title: self.trimmed_title@,
            selftext_without_tldr_tokenized: strings_view(self.selftext_without_tldr_tokenized@),
            ups: self.ups,
            selftext_without_tldr: self.selftext_without_tldr@,
        }
    }
}

/// Clones a vector of strings; the view is kept exactly.
pub(crate) fn clone_strings(v: &Vec<String>) -> (r: Vec<String>)
    ensures
        r@ == v@,
{
    let r = v.clone();
    proof {
        assert(r@ =~= v@);
    }
    r
}

/// Clones an optional string; the value is kept exactly.
pub(crate) fn clone_opt_string(o: &Option<String>) -> (r: Option<String>)
    ensures
        r == *o,
{
    match o {
        Some(s) => Some(s.clone()),
        None => None,
    }
}

/// Clones an optional vector of strings; the view is kept exactly.
pub(crate) fn clone_opt_strings(o: &Option<Vec<String>>) -> (r: Option<Vec<String>>)
    ensures
        opt_strings_view(r) == opt_strings_view(*o),
{
    match o {
        Some(v) => Some(clone_strings(v)),
        None => None,
    }
}

impl Clone for DataEntry {
    /// A clone has the same view as the original.
    fn clone(&self) -> (res: Self)
        ensures
            res@ == self@,
    {
        let res = DataEntry {
            title_tokenized: clone_strings(&self.title_tokenized),
            permalink: self.permalink.clone(),
            title: self.title.clone(),
            url: self.url.clone(),
            num_comments: self.num_comments,
            tldr: clone_opt_string(&self.tldr),
            created_utc: self.created_utc.clone(),
            trimmed_title_tokenized: clone_strings(&self.trimmed_title_tokenized),
            id: self.id.clone(),
            selftext_html: clone_opt_string(&self.selftext_html),
            score: self.score,
            upvote_ratio: self.upvote_ratio.clone(),
            tldr_tokenized: clone_opt_strings(&self.tldr_tokenized),
            selftext: self.selftext.clone(),
            trimmed_title: self.trimmed_title.clone(),
            selftext_without_tldr_tokenized: clone_strings(
                &self.selftext_without_tldr_tokenized,
            ),
            ups: self.ups,
            selftext_without_tldr: self.selftext_without_tldr.clone(),
        };
        proof {
            assert(res@ =~= self@);
        }
        res
    }
}

/// The view of a freshly created record: every string empty, every count
/// zero, every optional field unset, both kept numbers zero.
pub open spec fn empty_entry() -> DataEntryView {
    DataEntryView {
        title_tokenized: Seq::empty(),
        permalink: Seq::empty(),
        title: Seq::empty(),
        url: Seq::empty(),
        num_comments: 0,
        tldr: None,
        created_utc: JsonNum::UInt(0),
        trimmed_title_tokenized: Seq::empty(),
        id: Seq::empty(),
        selftext_html: None,
        score: 0,
        upvote_ratio: JsonNum::UInt(0),
        tldr_tokenized: None,
        selftext: Seq::empty(),
        trimmed_title: Seq::empty(),
        selftext_without_tldr_tokenized: Seq::empty(),
        ups: 0,
        selftext_without_tldr: Seq::empty(),
    }
}

/// What decoding requires of a required string field: the member must be a
/// JSON string.
pub open spec fn spec_str_field(v: JsonValueView, key: Seq<char>, fid: FieldId) -> Result<
    Seq<char>,
    SchemaError,
> {
    match obj_get(v, key) {
        JsonValueView::Str(s) => Ok(s),
        _ => Err(SchemaError::Field(fid)),
    }
}

/// What decoding requires of an unsigned integer field: the member must be a
/// JSON number that is an integer in `u64` range — a fractional or negative
/// number is rejected.
pub open spec fn spec_u64_field(v: JsonValueView, key: Seq<char>, fid: FieldId) -> Result<
    u64,
    SchemaError,
> {
    match obj_get(v, key) {
        JsonValueView::Num(JsonNum::UInt(u)) => Ok(u),
        _ => Err(SchemaError::Field(fid)),
    }
}

/// What decoding requires of a kept numeric field: the member must be a JSON
/// number of any kind, taken as it stands.
pub open spec fn spec_num_field(v: JsonValueView, key: Seq<char>, fid: FieldId) -> Result<
    JsonNum,
    SchemaError,
> {
    match obj_get(v, key) {
        JsonValueView::Num(n) => Ok(n),
        _ => Err(SchemaError::Field(fid)),
    }
}

/// An optional string field: set only when the member is a JSON string; any
/// other value — absent, `null`, or of the wrong type — leaves it unset.
pub open spec fn spec_opt_str(v: JsonValueView, key: Seq<char>) -> Option<Seq<char>> {
    match obj_get(v, key) {
        JsonValueView::Str(s) => Some(s),
        _ => None,
    }
}

/// The index of the first element of `a` that is not a JSON string, if any.
pub open spec fn first_non_string(a: Seq<JsonValueView>) -> Option<int>
    decreases a.len(),
{
    if a.len() == 0 {
        None
    } else if !(a[0] is Str) {
        Some(0)
    } else {
        match first_non_string(a.drop_first()) {
            None => None,
            Some(i) => Some(i + 1),
        }
    }
}

/// The contents of a sequence of JSON strings.
pub open spec fn string_elems(a: Seq<JsonValueView>) -> Seq<Seq<char>> {
    a.map_values(|x: JsonValueView| x->Str_0)
}

/// `first_non_string(a)` names the first non-string element of `a` exactly:
/// `None` means every element is a string, `Some(i)` points at the first
/// element that is not one.
pub proof fn lemma_first_non_string(a: Seq<JsonValueView>)
    ensures
        match first_non_string(a) {
            None => forall|i: int| 0 <= i < a.len() ==> a[i] is Str,
            Some(i) => 0 <= i < a.len() && !(a[i] is Str) && forall|j: int|
                0 <= j < i ==> a[j] is Str,
        },
    decreases a.len(),
{
    if a.len() > 0 && a[0] is Str {
        let d = a.drop_first();
        lemma_first_non_string(d);
        match first_non_string(d) {
            None => {
                assert forall|i: int| 0 <= i < a.len() implies a[i] is Str by {
                    if i > 0 {
                        assert(d[i - 1] == a[i]);
                    }
                }
            },
            Some(i) => {
                assert(d[i] == a[i + 1]);
                assert forall|j: int| 0 <= j < i + 1 implies a[j] is Str by {
                    if j > 0 {
                        assert(d[j - 1] == a[j]);
                    }
                }
            },
        }
    }
}

/// The key whose `null`-ness licenses a tokenized array field to be absent.
pub open spec fn sibling_key() -> Seq<char> {
    "selftext_without_tldr_tokenized"@
}

/// What decoding requires of a required tokenized array field.
///
/// A present array is decoded element by element, and the first element that
/// is not a string fails with its index.  A member that is not an array is
/// accepted (as empty) only while the `selftext_without_tldr_tokenized`
/// member is absent or `null` — the dataset writes these fields together, so
/// one missing while the other stands is a schema failure.
pub open spec fn spec_tok_field(v: JsonValueView, key: Seq<char>, fid: FieldId) -> Result<
    Seq<Seq<char>>,
    SchemaError,
> {
    match obj_get(v, key) {
        JsonValueView::Arr(a) => match first_non_string(a) {
            None => Ok(string_elems(a)),
            Some(i) => Err(SchemaError::Elem(fid, i as usize)),
        },
        _ => if obj_get(v, sibling_key()) is Null {
            Ok(Seq::empty())
        } else {
            Err(SchemaError::Field(fid))
        },
    }
}

/// What decoding requires of the optional `tldr_tokenized` field: a present
/// non-empty array of strings sets it, an empty array or an absent or `null`
/// member leaves it unset, and any other value is a schema failure.
pub open spec fn spec_opt_tok_field(v: JsonValueView) -> Result<
    Option<Seq<Seq<char>>>,
    SchemaError,
> {
    match obj_get(v, "tldr_tokenized"@) {
        JsonValueView::Arr(a) => match first_non_string(a) {
            None => Ok(
                if a.len() > 0 {
                    Some(string_elems(a))
                } else {
                    None
                },
            ),
            Some(i) => Err(SchemaError::Elem(FieldId::TldrTokenized, i as usize)),
        },
        JsonValueView::Null => Ok(None),
        _ => Err(SchemaError::Field(FieldId::TldrTokenized)),
    }
}

/// The whole decoder, field by field, in the order the fields are checked:
/// the three coupled tokenized arrays, the optional `tldr_tokenized`, the
/// required strings, the strict unsigned integers, the two kept numbers, and
/// last the optional strings, which cannot fail.
pub open spec fn decode_spec(v: JsonValueView) -> Result<DataEntryView, SchemaError> {
    if spec_tok_field(v, "title_tokenized"@, FieldId::TitleTokenized) is Err {
        Err(spec_tok_field(v, "title_tokenized"@, FieldId::TitleTokenized)->Err_0)
    } else if spec_tok_field(v, "trimmed_title_tokenized"@, FieldId::TrimmedTitleTokenized)
        is Err {
        Err(spec_tok_field(v, "trimmed_title_tokenized"@, FieldId::TrimmedTitleTokenized)->Err_0)
    } else if spec_tok_field(
        v,
        "selftext_without_tldr_tokenized"@,
        FieldId::SelftextWithoutTldrTokenized,
    ) is Err {
        Err(
            spec_tok_field(
                v,
                "selftext_without_tldr_tokenized"@,
                FieldId::SelftextWithoutTldrTokenized,
            )->Err_0,
        )
    } else if spec_opt_tok_field(v) is Err {
        Err(spec_opt_tok_field(v)->Err_0)
    } else if spec_str_field(v, "permalink"@, FieldId::Permalink) is Err {
        Err(spec_str_field(v, "permalink"@, FieldId::Permalink)->Err_0)
    } else if spec_str_field(v, "title"@, FieldId::Title) is Err {
        Err(spec_str_field(v, "title"@, FieldId::Title)->Err_0)
    } else if spec_str_field(v, "url"@, FieldId::Url) is Err {
        Err(spec_str_field(v, "url"@, FieldId::Url)->Err_0)
    } else if spec_str_field(v, "selftext"@, FieldId::Selftext) is Err {
        Err(spec_str_field(v, "selftext"@, FieldId::Selftext)->Err_0)
    } else if spec_str_field(v, "trimmed_title"@, FieldId::TrimmedTitle) is Err {
        Err(spec_str_field(v, "trimmed_title"@, FieldId::TrimmedTitle)->Err_0)
    } else if spec_str_field(v, "selftext_without_tldr"@, FieldId::SelftextWithoutTldr) is Err {
        Err(spec_str_field(v, "selftext_without_tldr"@, FieldId::SelftextWithoutTldr)->Err_0)
    } else if spec_str_field(v, "id"@, FieldId::Id) is Err {
        Err(spec_str_field(v, "id"@, FieldId::Id)->Err_0)
    } else if spec_u64_field(v, "num_comments"@, FieldId::NumComments) is Err {
        Err(spec_u64_field(v, "num_comments"@, FieldId::NumComments)->Err_0)
    } else if spec_u64_field(v, "ups"@, FieldId::Ups) is Err {
        Err(spec_u64_field(v, "ups"@, FieldId::Ups)->Err_0)
    } else if spec_u64_field(v, "score"@, FieldId::Score) is Err {
        Err(spec_u64_field(v, "score"@, FieldId::Score)->Err_0)
    } else if spec_num_field(v, "created_utc"@, FieldId::CreatedUtc) is Err {
        Err(spec_num_field(v, "created_utc"@, FieldId::CreatedUtc)->Err_0)
    } else if spec_num_field(v, "upvote_ratio"@, FieldId::UpvoteRatio) is Err {
        Err(spec_num_field(v, "upvote_ratio"@, FieldId::UpvoteRatio)->Err_0)
    } else {
        Ok(
            DataEntryView {
                title_tokenized: spec_tok_field(
                    v,
                    "title_tokenized"@,
                    FieldId::TitleTokenized,
                )->Ok_0,
                permalink: spec_str_field(v, "permalink"@, FieldId::Permalink)->Ok_0,
                title: spec_str_field(v, "title"@, FieldId::Title)->Ok_0,
                url: spec_str_field(v, "url"@, FieldId::Url)->Ok_0,
                num_comments: spec_u64_field(v, "num_comments"@, FieldId::NumComments)->Ok_0,
                tldr: spec_opt_str(v, "tldr"@),
                created_utc: spec_num_field(v, "created_utc"@, FieldId::CreatedUtc)->Ok_0,
                trimmed_title_tokenized: spec_tok_field(
                    v,
                    "trimmed_title_tokenized"@,
                    FieldId::TrimmedTitleTokenized,
                )->Ok_0,
                id: spec_str_field(v, "id"@, FieldId::Id)->Ok_0,
                selftext_html: spec_opt_str(v, "selftext_html"@),
                score: spec_u64_field(v, "score"@, FieldId::Score)->Ok_0,
                upvote_ratio: spec_num_field(v, "upvote_ratio"@, FieldId::UpvoteRatio)->Ok_0,
                tldr_tokenized: spec_opt_tok_field(v)->Ok_0,
                selftext: spec_str_field(v, "selftext"@, FieldId::Selftext)->Ok_0,
                trimmed_title: spec_str_field(v, "trimmed_title"@, FieldId::TrimmedTitle)->Ok_0,
                selftext_without_tldr_tokenized: spec_tok_field(
                    v,
                    "selftext_without_tldr_tokenized"@,
                    FieldId::SelftextWithoutTldrTokenized,
                )->Ok_0,
                ups: spec_u64_field(v, "ups"@, FieldId::Ups)->Ok_0,
                selftext_without_tldr: spec_str_field(
                    v,
                    "selftext_without_tldr"@,
                    FieldId::SelftextWithoutTldr,
                )->Ok_0,
            },
        )
    }
}

/// A sequence of strings laid out as a JSON array of strings.
pub open spec fn strs_json(ss: Seq<Seq<char>>) -> JsonValueView {
    JsonValueView::Arr(ss.map_values(|s: Seq<char>| JsonValueView::Str(s)))
}

/// An optional string laid out as JSON: the string, or `null` when unset.
pub open spec fn opt_str_json(o: Option<Seq<char>>) -> JsonValueView {
    match o {
        Some(s) => JsonValueView::Str(s),
        None => JsonValueView::Null,
    }
}

/// An optional sequence of strings laid out as JSON: an array of strings, or
/// `null` when unset.
pub open spec fn opt_strs_json(o: Option<Seq<Seq<char>>>) -> JsonValueView {
    match o {
        Some(ss) => strs_json(ss),
        None => JsonValueView::Null,
    }
}

/// How a record is laid out as a JSON object: every field under its own key,
/// unset optional fields as `null`.
pub open spec fn entry_json(e: DataEntryView) -> JsonValueView {
    JsonValueView::Obj(
        seq![
            ("title_tokenized"@, strs_json(e.title_tokenized)),
            ("permalink"@, JsonValueView::Str(e.permalink)),
            ("title"@, JsonValueView::Str(e.title)),
            ("url"@, JsonValueView::Str(e.url)),
            ("num_comments"@, JsonValueView::Num(JsonNum::UInt(e.num_comments))),
            ("tldr"@, opt_str_json(e.tldr)),
            ("created_utc"@, JsonValueView::Num(e.created_utc)),
            ("trimmed_title_tokenized"@, strs_json(e.trimmed_title_tokenized)),
            ("id"@, JsonValueView::Str(e.id)),
            ("selftext_html"@, opt_str_json(e.selftext_html)),
            ("score"@, JsonValueView::Num(JsonNum::UInt(e.score))),
            ("upvote_ratio"@, JsonValueView::Num(e.upvote_ratio)),
            ("tldr_tokenized"@, opt_strs_json(e.tldr_tokenized)),
            ("selftext"@, JsonValueView::Str(e.selftext)),
            ("trimmed_title"@, JsonValueView::Str(e.trimmed_title)),
            (
                "selftext_without_tldr_tokenized"@,
                strs_json(e.selftext_without_tldr_tokenized),
            ),
            ("ups"@, JsonValueView::Num(JsonNum::UInt(e.ups))),
            ("selftext_without_tldr"@, JsonValueView::Str(e.selftext_without_tldr)),
        ],
    )
}

/// Lays a vector of strings out as a vector of JSON strings.
fn strings_to_values(v: &Vec<String>) -> (r: Vec<JsonValue>)
    ensures
        JsonValueView::Arr(crate::json::values_view(r@)) == strs_json(strings_view(v@)),
{
    let n: usize = v.len();
    let mut out: Vec<JsonValue> = Vec::new();
    let mut i: usize = 0;
    while i < n
        invariant
            n == v@.len(),
            0 <= i <= n,
            out@.len() == i,
            forall|j: int| 0 <= j < i ==> crate::json::value_view(#[trigger] out@[j])
                == JsonValueView::Str(v@[j]@),
        decreases n - i,
    {
        out.push(JsonValue::Str(v[i].clone()));
        i += 1;
    }
    proof {
        crate::json::lemma_values_view(out@);
        assert(crate::json::values_view(out@) =~= strings_view(v@).map_values(
            |s: Seq<char>| JsonValueView::Str(s),
        ));
    }
    out
}

/// Whether a record could have come out of the decoder: the decoder never
/// produces `tldr_tokenized` set to an empty sequence (an empty array leaves
/// the field unset).
pub open spec fn decoder_canonical(e: DataEntryView) -> bool {
    e.tldr_tokenized matches Some(t) ==> t.len() > 0
}

/// Every decoded record is canonical in the sense of [`decoder_canonical`].
pub proof fn lemma_decode_canonical(v: JsonValueView)
    requires
        decode_spec(v) is Ok,
    ensures
        decoder_canonical(decode_spec(v)->Ok_0),
{
}

/// Where each field of [`entry_json`] stands: looking any of the record's
/// keys up in the laid-out object yields that field's value.
#[verifier::rlimit(60)]
proof fn lemma_entry_json_fields(e: DataEntryView)
    ensures
        obj_get(entry_json(e), "title_tokenized"@) == strs_json(e.title_tokenized),
        obj_get(entry_json(e), "permalink"@) == JsonValueView::Str(e.permalink),
        obj_get(entry_json(e), "title"@) == JsonValueView::Str(e.title),
        obj_get(entry_json(e), "url"@) == JsonValueView::Str(e.url),
        obj_get(entry_json(e), "num_comments"@) == JsonValueView::Num(
            JsonNum::UInt(e.num_comments),
        ),
        obj_get(entry_json(e), "tldr"@) == opt_str_json(e.tldr),
        obj_get(entry_json(e), "created_utc"@) == JsonValueView::Num(e.created_utc),
        obj_get(entry_json(e), "trimmed_title_tokenized"@) == strs_json(
            e.trimmed_title_tokenized,
        ),
        obj_get(entry_json(e), "id"@) == JsonValueView::Str(e.id),
        obj_get(entry_json(e), "selftext_html"@) == opt_str_json(e.selftext_html),
        obj_get(entry_json(e), "score"@) == JsonValueView::Num(JsonNum::UInt(e.score)),
        obj_get(entry_json(e), "upvote_ratio"@) == JsonValueView::Num(e.upvote_ratio),
        obj_get(entry_json(e), "tldr_tokenized"@) == opt_strs_json(e.tldr_tokenized),
        obj_get(entry_json(e), "selftext"@) == JsonValueView::Str(e.selftext),
        obj_get(entry_json(e), "trimmed_title"@) == JsonValueView::Str(e.trimmed_title),
        obj_get(entry_json(e), "selftext_without_tldr_tokenized"@) == strs_json(
            e.selftext_without_tldr_tokenized,
        ),
        obj_get(entry_json(e), "ups"@) == JsonValueView::Num(JsonNum::UInt(e.ups)),
        obj_get(entry_json(e), "selftext_without_tldr"@) == JsonValueView::Str(
            e.selftext_without_tldr,
        ),
{
    reveal_strlit("title_tokenized");
    reveal_strlit("permalink");
    reveal_strlit("title");
    reveal_strlit("url");
    reveal_strlit("num_comments");
    reveal_strlit("tldr");
    reveal_strlit("created_utc");
    reveal_strlit("trimmed_title_tokenized");
    reveal_strlit("id");
    reveal_strlit("selftext_html");
    reveal_strlit("score");
    reveal_strlit("upvote_ratio");
    reveal_strlit("tldr_tokenized");
    reveal_strlit("selftext");
    reveal_strlit("trimmed_title");
    reveal_strlit("selftext_without_tldr_tokenized");
    reveal_strlit("ups");
    reveal_strlit("selftext_without_tldr");
    let m = entry_json(e)->Obj_0;
    assert(m.len() == 18);
    assert(m[0].0 == "title_tokenized"@);
    assert(m[1].0 == "permalink"@);
    assert(m[2].0 == "title"@);
    assert(m[3].0 == "url"@);
    assert(m[4].0 == "num_comments"@);
    assert(m[5].0 == "tldr"@);
    assert(m[6].0 == "created_utc"@);
    assert(m[7].0 == "trimmed_title_tokenized"@);
    assert(m[8].0 == "id"@);
    assert(m[9].0 == "selftext_html"@);
    assert(m[10].0 == "score"@);
    assert(m[11].0 == "upvote_ratio"@);
    assert(m[12].0 == "tldr_tokenized"@);
    assert(m[13].0 == "selftext"@);
    assert(m[14].0 == "trimmed_title"@);
    assert(m[15].0 == "selftext_without_tldr_tokenized"@);
    assert(m[16].0 == "ups"@);
    assert(m[17].0 == "selftext_without_tldr"@);
    assert(obj_get(entry_json(e), "title_tokenized"@) == strs_json(e.title_tokenized)) by {
        crate::json::lemma_member_lookup_at(m, "title_tokenized"@, 0);
    }
    assert(obj_get(entry_json(e), "permalink"@) == JsonValueView::Str(e.permalink)) by {
        assert forall|j: int| 0 <= j < 1 implies (#[trigger] m[j]).0 != "permalink"@ by {
        }
        crate::json::lemma_member_lookup_at(m, "permalink"@, 1);
    }
    assert(obj_get(entry_json(e), "title"@) == JsonValueView::Str(e.title)) by {
        assert forall|j: int| 0 <= j < 2 implies (#[trigger] m[j]).0 != "title"@ by {
        }
        crate::json::lemma_member_lookup_at(m, "title"@, 2);
    }
    assert(obj_get(entry_json(e), "url"@) == JsonValueView::Str(e.url)) by {
        assert forall|j: int| 0 <= j < 3 implies (#[trigger] m[j]).0 != "url"@ by {
        }
        crate::json::lemma_member_lookup_at(m, "url"@, 3);
    }
    assert(obj_get(entry_json(e), "num_comments"@) == JsonValueView::Num(JsonNum::UInt(e.num_comments))) by {
        assert forall|j: int| 0 <= j < 4 implies (#[trigger] m[j]).0 != "num_comments"@ by {
        }
        crate::json::lemma_member_lookup_at(m, "num_comments"@, 4);
    }
    assert(obj_get(entry_json(e), "tldr"@) == opt_str_json(e.tldr)) by {
        assert forall|j: int| 0 <= j < 5 implies (#[trigger] m[j]).0 != "tldr"@ by {
        }
        crate::json::lemma_member_lookup_at(m, "tldr"@, 5);
    }
    assert(obj_get(entry_json(e), "created_utc"@) == JsonValueView::Num(e.created_utc)) by {
        assert forall|j: int| 0 <= j < 6 implies (#[trigger] m[j]).0 != "created_utc"@ by {
        }
        crate::json::lemma_member_lookup_at(m, "created_utc"@, 6);
    }
    assert(obj_get(entry_json(e), "trimmed_title_tokenized"@) == strs_json(e.trimmed_title_tokenized)) by {
        assert forall|j: int| 0 <= j < 7 implies (#[trigger] m[j]).0 != "trimmed_title_tokenized"@ by {
        }
        crate::json::lemma_member_lookup_at(m, "trimmed_title_tokenized"@, 7);
    }
    assert(obj_get(entry_json(e), "id"@) == JsonValueView::Str(e.id)) by {
        assert forall|j: int| 0 <= j < 8 implies (#[trigger] m[j]).0 != "id"@ by {
        }
        crate::json::lemma_member_lookup_at(m, "id"@, 8);
    }
    assert(obj_get(entry_json(e), "selftext_html"@) == opt_str_json(e.selftext_html)) by {
        assert forall|j: int| 0 <= j < 9 implies (#[trigger] m[j]).0 != "selftext_html"@ by {
        }
        crate::json::lemma_member_lookup_at(m, "selftext_html"@, 9);
    }
    assert(obj_get(entry_json(e), "score"@) == JsonValueView::Num(JsonNum::UInt(e.score))) by {
        assert forall|j: int| 0 <= j < 10 implies (#[trigger] m[j]).0 != "score"@ by {
            assert("score"@[0] == 's');
            assert("title"@[0] == 't');
        }
        crate::json::lemma_member_lookup_at(m, "score"@, 10);
    }
    assert(obj_get(entry_json(e), "upvote_ratio"@) == JsonValueView::Num(e.upvote_ratio)) by {
        assert forall|j: int| 0 <= j < 11 implies (#[trigger] m[j]).0 != "upvote_ratio"@ by {
            assert("upvote_ratio"@[0] == 'u');
            assert("num_comments"@[0] == 'n');
        }
        crate::json::lemma_member_lookup_at(m, "upvote_ratio"@, 11);
    }
    assert(obj_get(entry_json(e), "tldr_tokenized"@) == opt_strs_json(e.tldr_tokenized)) by {
        assert forall|j: int| 0 <= j < 12 implies (#[trigger] m[j]).0 != "tldr_tokenized"@ by {
        }
        crate::json::lemma_member_lookup_at(m, "tldr_tokenized"@, 12);
    }
    assert(obj_get(entry_json(e), "selftext"@) == JsonValueView::Str(e.selftext)) by {
        assert forall|j: int| 0 <= j < 13 implies (#[trigger] m[j]).0 != "selftext"@ by {
        }
        crate::json::lemma_member_lookup_at(m, "selftext"@, 13);
    }
    assert(obj_get(entry_json(e), "trimmed_title"@) == JsonValueView::Str(e.trimmed_title)) by {
        assert forall|j: int| 0 <= j < 14 implies (#[trigger] m[j]).0 != "trimmed_title"@ by {
            assert("trimmed_title"@[0] == 't');
            assert("selftext_html"@[0] == 's');
        }
        crate::json::lemma_member_lookup_at(m, "trimmed_title"@, 14);
    }
    assert(obj_get(entry_json(e), "selftext_without_tldr_tokenized"@) == strs_json(e.selftext_without_tldr_tokenized)) by {
        assert forall|j: int| 0 <= j < 15 implies (#[trigger] m[j]).0 != "selftext_without_tldr_tokenized"@ by {
        }
        crate::json::lemma_member_lookup_at(m, "selftext_without_tldr_tokenized"@, 15);
    }
    assert(obj_get(entry_json(e), "ups"@) == JsonValueView::Num(JsonNum::UInt(e.ups))) by {
        assert forall|j: int| 0 <= j < 16 implies (#[trigger] m[j]).0 != "ups"@ by {
            assert("ups"@[1] == 'p');
            assert("url"@[1] == 'r');
        }
        crate::json::lemma_member_lookup_at(m, "ups"@, 16);
    }
    assert(obj_get(entry_json(e), "selftext_without_tldr"@) == JsonValueView::Str(e.selftext_without_tldr)) by {
        assert forall|j: int| 0 <= j < 17 implies (#[trigger] m[j]).0 != "selftext_without_tldr"@ by {
        }
        crate::json::lemma_member_lookup_at(m, "selftext_without_tldr"@, 17);
    }
}

/// A sequence of strings laid out as JSON decodes back to itself: every
/// element of the array is a string, and the first non-string index does not
/// exist.
proof fn lemma_strs_json_elems(ss: Seq<Seq<char>>)
    ensures
        first_non_string(strs_json(ss)->Arr_0) is None,
        string_elems(strs_json(ss)->Arr_0) == ss,
{
    let a = strs_json(ss)->Arr_0;
    lemma_first_non_string(a);
    if first_non_string(a) is Some {
        let i = first_non_string(a)->Some_0;
        assert(a[i] == JsonValueView::Str(ss[i]));
    }
    assert(string_elems(a) =~= ss);
}

/// Round trip: a record laid out as JSON by [`entry_json`] decodes back to
/// the very same record, for every record the decoder could have produced.
pub proof fn lemma_encode_decode_round_trip(e: DataEntryView)
    requires
        decoder_canonical(e),
    ensures
        decode_spec(entry_json(e)) == Ok::<DataEntryView, SchemaError>(e),
{
    lemma_entry_json_fields(e);
    let v = entry_json(e);
    lemma_strs_json_elems(e.title_tokenized);
    lemma_strs_json_elems(e.trimmed_title_tokenized);
    lemma_strs_json_elems(e.selftext_without_tldr_tokenized);
    assert(spec_tok_field(v, "title_tokenized"@, FieldId::TitleTokenized) == Ok::<
        Seq<Seq<char>>,
        SchemaError,
    >(e.title_tokenized));
    assert(spec_tok_field(v, "trimmed_title_tokenized"@, FieldId::TrimmedTitleTokenized) == Ok::<
        Seq<Seq<char>>,
        SchemaError,
    >(e.trimmed_title_tokenized));
    assert(spec_tok_field(
        v,
        "selftext_without_tldr_tokenized"@,
        FieldId::SelftextWithoutTldrTokenized,
    ) == Ok::<Seq<Seq<char>>, SchemaError>(e.selftext_without_tldr_tokenized));
    match e.tldr_tokenized {
        Some(ss) => {
            lemma_strs_json_elems(ss);
            assert(strs_json(ss)->Arr_0.len() == ss.len());
            assert(spec_opt_tok_field(v) == Ok::<Option<Seq<Seq<char>>>, SchemaError>(
                Some(ss),
            ));
        },
        None => {
            assert(spec_opt_tok_field(v) == Ok::<Option<Seq<Seq<char>>>, SchemaError>(
                None::<Seq<Seq<char>>>,
            ));
        },
    }
    assert(decode_spec(v) is Ok);
    assert(decode_spec(v)->Ok_0 =~= e);
}

/// What holding an `Ok` from the decoder tells about the document: every
/// required field was present with its required JSON type.  Read the other
/// way: a document whose `title` (or any required scalar field) is absent or
/// `null`, or whose `num_comments`, `ups` or `score` is fractional or
/// negative, cannot decode.
pub proof fn lemma_decode_ok_shapes(v: JsonValueView)
    requires
        decode_spec(v) is Ok,
    ensures
        obj_get(v, "permalink"@) is Str,
        obj_get(v, "title"@) is Str,
        obj_get(v, "url"@) is Str,
        obj_get(v, "selftext"@) is Str,
        obj_get(v, "trimmed_title"@) is Str,
        obj_get(v, "selftext_without_tldr"@) is Str,
        obj_get(v, "id"@) is Str,
        obj_get(v, "num_comments"@) matches JsonValueView::Num(JsonNum::UInt(_)),
        obj_get(v, "ups"@) matches JsonValueView::Num(JsonNum::UInt(_)),
        obj_get(v, "score"@) matches JsonValueView::Num(JsonNum::UInt(_)),
        obj_get(v, "created_utc"@) is Num,
        obj_get(v, "upvote_ratio"@) is Num,
        decode_spec(v)->Ok_0.tldr == spec_opt_str(v, "tldr"@),
        decode_spec(v)->Ok_0.selftext_html == spec_opt_str(v, "selftext_html"@),
{
}

/// Reads a required string field.
fn get_str_field(v: &JsonValue, key: &str, fid: FieldId) -> (r: Result<String, SchemaError>)
    ensures
        r is Ok ==> spec_str_field(v@, key@, fid) == Ok::<Seq<char>, SchemaError>((r->Ok_0)@),
        r is Err ==> spec_str_field(v@, key@, fid) == Err::<Seq<char>, SchemaError>(r->Err_0),
{
    match crate::json::obj_lookup(v, key) {
        Some(x) => match x {
            JsonValue::Str(s) => Ok(s.clone()),
            _ => Err(SchemaError::Field(fid)),
        },
        None => Err(SchemaError::Field(fid)),
    }
}

/// Reads a strict unsigned integer field: only a JSON number that is an
/// integer in `u64` range is accepted.
fn get_u64_field(v: &JsonValue, key: &str, fid: FieldId) -> (r: Result<u64, SchemaError>)
    ensures
        r is Ok ==> spec_u64_field(v@, key@, fid) == Ok::<u64, SchemaError>(r->Ok_0),
        r is Err ==> spec_u64_field(v@, key@, fid) == Err::<u64, SchemaError>(r->Err_0),
{
    match crate::json::obj_lookup(v, key) {
        Some(x) => match x {
            JsonValue::Num(JsonNum::UInt(u)) => Ok(*u),
            _ => Err(SchemaError::Field(fid)),
        },
        None => Err(SchemaError::Field(fid)),
    }
}

/// Reads a kept numeric field: any JSON number, taken as it stands.
fn get_num_field(v: &JsonValue, key: &str, fid: FieldId) -> (r: Result<JsonNum, SchemaError>)
    ensures
        r is Ok ==> spec_num_field(v@, key@, fid) == Ok::<JsonNum, SchemaError>(r->Ok_0),
        r is Err ==> spec_num_field(v@, key@, fid) == Err::<JsonNum, SchemaError>(r->Err_0),
{
    match crate::json::obj_lookup(v, key) {
        Some(x) => match x {
            JsonValue::Num(n) => Ok(n.clone()),
            _ => Err(SchemaError::Field(fid)),
        },
        None => Err(SchemaError::Field(fid)),
    }
}

/// Reads an optional string field; any value that is not a string leaves it
/// unset.
fn get_opt_str(v: &JsonValue, key: &str) -> (r: Option<String>)
    ensures
        opt_str_view(r) == spec_opt_str(v@, key@),
{
    match crate::json::obj_lookup(v, key) {
        Some(x) => match x {
            JsonValue::Str(s) => Some(s.clone()),
            _ => None,
        },
        None => None,
    }
}

/// Whether the member that licenses an absent tokenized field is absent or
/// `null`.
fn sibling_is_null(v: &JsonValue) -> (r: bool)
    ensures
        r == (obj_get(v@, sibling_key()) is Null),
{
    match crate::json::obj_lookup(v, "selftext_without_tldr_tokenized") {
        Some(x) => match x {
            JsonValue::Null => true,
            _ => false,
        },
        None => true,
    }
}

/// Decodes the elements of a tokenized array: every element must be a JSON
/// string, and the first that is not fails with its index.
fn get_string_array(a: &Vec<JsonValue>, fid: FieldId) -> (r: Result<Vec<String>, SchemaError>)
    ensures
        match first_non_string(crate::json::values_view(a@)) {
            None => r is Ok && strings_view((r->Ok_0)@) == string_elems(
                crate::json::values_view(a@),
            ) && (r->Ok_0)@.len() == a@.len(),
            Some(i) => r == Err::<Vec<String>, SchemaError>(SchemaError::Elem(fid, i as usize)),
        },
{
    let ghost va = crate::json::values_view(a@);
    proof {
        crate::json::lemma_values_view(a@);
        lemma_first_non_string(va);
    }
    let n: usize = a.len();
    let mut out: Vec<String> = Vec::new();
    let mut i: usize = 0;
    while i < n
        invariant
            n == a@.len(),
            0 <= i <= n,
            va == crate::json::values_view(a@),
            va.len() == n,
            forall|j: int| 0 <= j < n ==> #[trigger] va[j] == crate::json::value_view(a@[j]),
            forall|j: int| 0 <= j < i ==> #[trigger] va[j] is Str,
            out@.len() == i,
            forall|j: int| 0 <= j < i ==> (#[trigger] out@[j])@ == va[j]->Str_0,
            match first_non_string(va) {
                None => true,
                Some(k) => k >= i,
            },
        decreases n - i,
    {
        match &a[i] {
            JsonValue::Str(s) => {
                out.push(s.clone());
            },
            _ => {
                proof {
                    lemma_first_non_string(va);
                    assert(!(va[i as int] is Str));
                }
                return Err(SchemaError::Elem(fid, i));
            },
        }
        i += 1;
        proof {
            lemma_first_non_string(va);
        }
    }
    proof {
        lemma_first_non_string(va);
        assert(strings_view(out@) =~= string_elems(va));
    }
    Ok(out)
}

/// Reads a required tokenized array field, with the sibling rule for a
/// member that is not an array.
fn get_tok_field(v: &JsonValue, key: &str, fid: FieldId) -> (r: Result<Vec<String>, SchemaError>)
    ensures
        r is Ok ==> spec_tok_field(v@, key@, fid) == Ok::<Seq<Seq<char>>, SchemaError>(
            strings_view((r->Ok_0)@),
        ),
        r is Err ==> spec_tok_field(v@, key@, fid) == Err::<Seq<Seq<char>>, SchemaError>(
            r->Err_0,
        ),
{
    match crate::json::obj_lookup(v, key) {
        Some(x) => match x {
            JsonValue::Arr(a) => {
                proof {
                    lemma_first_non_string(crate::json::values_view(a@));
                }
                get_string_array(a, fid)
            },
            _ => {
                if sibling_is_null(v) {
                    proof {
                        assert(strings_view(Seq::<String>::empty()) =~= Seq::<Seq<char>>::empty());
                    }
                    Ok(Vec::new())
                } else {
                    Err(SchemaError::Field(fid))
                }
            },
        },
        None => {
            if sibling_is_null(v) {
                proof {
                    assert(strings_view(Seq::<String>::empty()) =~= Seq::<Seq<char>>::empty());
                }
                Ok(Vec::new())
            } else {
                Err(SchemaError::Field(fid))
            }
        },
    }
}

/// Reads the optional `tldr_tokenized` field: a non-empty array of strings
/// sets it, an empty array or an absent or `null` member leaves it unset.
fn get_opt_tok_field(v: &JsonValue) -> (r: Result<Option<Vec<String>>, SchemaError>)
    ensures
        r is Ok ==> spec_opt_tok_field(v@) == Ok::<Option<Seq<Seq<char>>>, SchemaError>(
            opt_strings_view(r->Ok_0),
        ),
        r is Err ==> spec_opt_tok_field(v@) == Err::<Option<Seq<Seq<char>>>, SchemaError>(
            r->Err_0,
        ),
{
    match crate::json::obj_lookup(v, "tldr_tokenized") {
        Some(x) => match x {
            JsonValue::Arr(a) => {
                proof {
                    lemma_first_non_string(crate::json::values_view(a@));
                }
                match get_string_array(a, FieldId::TldrTokenized) {
                    Ok(strs) => if strs.len() > 0 {
                        Ok(Some(strs))
                    } else {
                        Ok(None)
                    },
                    Err(e) => Err(e),
                }
            },
            JsonValue::Null => Ok(None),
            _ => Err(SchemaError::Field(FieldId::TldrTokenized)),
        },
        None => Ok(None),
    }
}

impl DataEntry {
    /// Creates a record with every field at its empty value.
    pub fn new() -> (r: DataEntry)
        ensures
            r@ == empty_entry(),
    {
        let r = DataEntry {
            title_tokenized: Vec::new(),
            permalink: String::new(),
            title: String::new(),
            url: String::new(),
            num_comments: 0,
            tldr: None,
            created_utc: JsonNum::UInt(0),
            trimmed_title_tokenized: Vec::new(),
            id: String::new(),
            selftext_html: None,
            score: 0,
            upvote_ratio: JsonNum::UInt(0),
            tldr_tokenized: None,
            selftext: String::new(),
            trimmed_title: String::new(),
            selftext_without_tldr_tokenized: Vec::new(),
            ups: 0,
            selftext_without_tldr: String::new(),
        };
        proof {
            assert(strings_view(Seq::<String>::empty()) =~= Seq::<Seq<char>>::empty());
            assert(r@ =~= empty_entry());
        }
        r
    }

    /// Decodes one parsed JSON document into a record, checking every field
    /// against the schema; the result is exactly what [`decode_spec`] says.
    pub fn from_json_value(v: &JsonValue) -> (r: Result<DataEntry, SchemaError>)
        ensures
            r is Ok ==> decode_spec(v@) == Ok::<DataEntryView, SchemaError>((r->Ok_0)@),
            r is Err ==> decode_spec(v@) == Err::<DataEntryView, SchemaError>(r->Err_0),
    {
        let title_tokenized = match get_tok_field(v, "title_tokenized", FieldId::TitleTokenized) {
            Ok(x) => x,
            Err(e) => {
                return Err(e);
            },
        };
        let trimmed_title_tokenized = match get_tok_field(
            v,
            "trimmed_title_tokenized",
            FieldId::TrimmedTitleTokenized,
        ) {
            Ok(x) => x,
            Err(e) => {
                return Err(e);
            },
        };
        let selftext_without_tldr_tokenized = match get_tok_field(
            v,
            "selftext_without_tldr_tokenized",
            FieldId::SelftextWithoutTldrTokenized,
        ) {
            Ok(x) => x,
            Err(e) => {
                return Err(e);
            },
        };
        let tldr_tokenized = match get_opt_tok_field(v) {
            Ok(x) => x,
            Err(e) => {
                return Err(e);
            },
        };
        let permalink = match get_str_field(v, "permalink", FieldId::Permalink) {
            Ok(x) => x,
            Err(e) => {
                return Err(e);
            },
        };
        let title = match get_str_field(v, "title", FieldId::Title) {
            Ok(x) => x,
            Err(e) => {
                return Err(e);
            },
        };
        let url = match get_str_field(v, "url", FieldId::Url) {
            Ok(x) => x,
            Err(e) => {
                return Err(e);
            },
        };
        let selftext = match get_str_field(v, "selftext", FieldId::Selftext) {
            Ok(x) => x,
            Err(e) => {
                return Err(e);
            },
        };
        let trimmed_title = match get_str_field(v, "trimmed_title", FieldId::TrimmedTitle) {
            Ok(x) => x,
            Err(e) => {
                return Err(e);
            },
        };
        let selftext_without_tldr = match get_str_field(
            v,
            "selftext_without_tldr",
            FieldId::SelftextWithoutTldr,
        ) {
            Ok(x) => x,
            Err(e) => {
                return Err(e);
            },
        };
        let id = match get_str_field(v, "id", FieldId::Id) {
            Ok(x) => x,
            Err(e) => {
                return Err(e);
            },
        };
        let num_comments = match get_u64_field(v, "num_comments", FieldId::NumComments) {
            Ok(x) => x,
            Err(e) => {
                return Err(e);
            },
        };
        let ups = match get_u64_field(v, "ups", FieldId::Ups) {
            Ok(x) => x,
            Err(e) => {
                return Err(e);
            },
        };
        let score = match get_u64_field(v, "score", FieldId::Score) {
            Ok(x) => x,
            Err(e) => {
                return Err(e);
            },
        };
        let created_utc = match get_num_field(v, "created_utc", FieldId::CreatedUtc) {
            Ok(x) => x,
            Err(e) => {
                return Err(e);
            },
        };
        let upvote_ratio = match get_num_field(v, "upvote_ratio", FieldId::UpvoteRatio) {
            Ok(x) => x,
            Err(e) => {
                return Err(e);
            },
        };
        let tldr = get_opt_str(v, "tldr");
        let selftext_html = get_opt_str(v, "selftext_html");
        let entry = DataEntry {
            title_tokenized,
            permalink,
            title,
            url,
            num_comments,
            tldr,
            created_utc,
            trimmed_title_tokenized,
            id,
            selftext_html,
            score,
            upvote_ratio,
            tldr_tokenized,
            selftext,
            trimmed_title,
            selftext_without_tldr_tokenized,
            ups,
            selftext_without_tldr,
        };
        proof {
            assert(decode_spec(v@) is Ok);
            assert(entry@ =~= decode_spec(v@)->Ok_0);
        }
        Ok(entry)
    }

    /// Lays the record out as the JSON value that [`entry_json`] describes.
    fn to_json_value(&self) -> (r: JsonValue)
        ensures
            r@ == entry_json(self@),
    {
        let mut members: Vec<(String, JsonValue)> = Vec::new();
        members.push(
            ("title_tokenized".to_owned(), JsonValue::Arr(strings_to_values(&self.title_tokenized))),
        );
        members.push(("permalink".to_owned(), JsonValue::Str(self.permalink.clone())));
        members.push(("title".to_owned(), JsonValue::Str(self.title.clone())));
        members.push(("url".to_owned(), JsonValue::Str(self.url.clone())));
        members.push(
            ("num_comments".to_owned(), JsonValue::Num(JsonNum::UInt(self.num_comments))),
        );
        members.push(
            (
                "tldr".to_owned(),
                match &self.tldr {
                    Some(s) => JsonValue::Str(s.clone()),
                    None => JsonValue::Null,
                },
            ),
        );
        members.push(("created_utc".to_owned(), JsonValue::Num(self.created_utc.clone())));
        members.push(
            (
                "trimmed_title_tokenized".to_owned(),
                JsonValue::Arr(strings_to_values(&self.trimmed_title_tokenized)),
            ),
        );
        members.push(("id".to_owned(), JsonValue::Str(self.id.clone())));
        members.push(
            (
                "selftext_html".to_owned(),
                match &self.selftext_html {
                    Some(s) => JsonValue::Str(s.clone()),
                    None => JsonValue::Null,
                },
            ),
        );
        members.push(("score".to_owned(), JsonValue::Num(JsonNum::UInt(self.score))));
        members.push(("upvote_ratio".to_owned(), JsonValue::Num(self.upvote_ratio.clone())));
        members.push(
            (
                "tldr_tokenized".to_owned(),
                match &self.tldr_tokenized {
                    Some(vv) => JsonValue::Arr(strings_to_values(vv)),
                    None => JsonValue::Null,
                },
            ),
        );
        members.push(("selftext".to_owned(), JsonValue::Str(self.selftext.clone())));
        members.push(("trimmed_title".to_owned(), JsonValue::Str(self.trimmed_title.clone())));
        members.push(
            (
                "selftext_without_tldr_tokenized".to_owned(),
                JsonValue::Arr(strings_to_values(&self.selftext_without_tldr_tokenized)),
            ),
        );
        members.push(("ups".to_owned(), JsonValue::Num(JsonNum::UInt(self.ups))));
        members.push(
            (
                "selftext_without_tldr".to_owned(),
                JsonValue::Str(self.selftext_without_tldr.clone()),
            ),
        );
        let r = JsonValue::Obj(members);
        proof {
            let m = r->Obj_0;
            crate::json::lemma_members_view(m@);
            assert(crate::json::members_view(m@) =~= entry_json(self@)->Obj_0);
        }
        r
    }

    /// Renders the record as one line of JSON text; encoding always
    /// succeeds, and the text is the rendering of [`entry_json`].
    pub fn to_json_string(&self) -> (r: Result<String, Error>)
        ensures
            r is Ok,
            r is Ok ==> (r->Ok_0)@ == rendered_str(entry_json(self@)),
    {
        let v = self.to_json_value();
        match render_json_string(&v) {
            Ok(s) => Ok(s),
            // Rendering a JSON value cannot fail; the arm only satisfies the
            // renderer's signature.
            Err(e) => Err(Error::Parse(e)),
        }
    }

    /// Renders the record as JSON bytes; encoding always succeeds, and the
    /// bytes are the rendering of [`entry_json`].
    pub fn to_json_bytes(&self) -> (r: Result<Vec<u8>, Error>)
        ensures
            r is Ok,
            r is Ok ==> (r->Ok_0)@ == rendered_bytes(entry_json(self@)),
    {
        let v = self.to_json_value();
        match render_json_bytes(&v) {
            Ok(b) => Ok(b),
            // Rendering a JSON value cannot fail; the arm only satisfies the
            // renderer's signature.
            Err(e) => Err(Error::Parse(e)),
        }
    }

    /// Parses one JSON text and decodes it: a parse failure for text that is
    /// not JSON, a schema failure from [`decode_spec`] otherwise, and the
    /// decoded record exactly when both steps succeed.
    pub fn from_json_string(s: &str) -> (r: Result<DataEntry, Error>)
        ensures
            match parsed_json_str(s@) {
                None => r matches Err(Error::Parse(_)),
                Some(v) => match decode_spec(v) {
                    Ok(ev) => r is Ok && (r->Ok_0)@ == ev,
                    Err(se) => r == Err::<DataEntry, Error>(Error::Schema(se)),
                },
            },
    {
        match parse_json_str(s) {
            Ok(v) => match DataEntry::from_json_value(&v) {
                Ok(e) => Ok(e),
                Err(se) => Err(Error::Schema(se)),
            },
            Err(msg) => Err(Error::Parse(msg)),
        }
    }

    /// Parses one JSON byte string and decodes it, as
    /// [`DataEntry::from_json_string`] does for text.
    pub fn from_json_bytes(b: &[u8]) -> (r: Result<DataEntry, Error>)
        ensures
            match parsed_json_bytes(b@) {
                None => r matches Err(Error::Parse(_)),
                Some(v) => match decode_spec(v) {
                    Ok(ev) => r is Ok && (r->Ok_0)@ == ev,
                    Err(se) => r == Err::<DataEntry, Error>(Error::Schema(se)),
                },
            },
    {
        match parse_json_bytes(b) {
            Ok(v) => match DataEntry::from_json_value(&v) {
                Ok(e) => Ok(e),
                Err(se) => Err(Error::Schema(se)),
            },
            Err(msg) => Err(Error::Parse(msg)),
        }
    }
}

} // verus!
