//! A plain-value model of JSON documents.
//!
//! Dataset records arrive as JSON text; the decoder works on this model, in
//! which every part of a document is an ordinary value that contracts can
//! speak about.  The one exception is a non-integer number: its value is kept
//! as the `serde_json::Number` it was parsed into and carried through opaquely,
//! so no floating-point rounding is ever introduced by this crate.

use vstd::prelude::*;

verus! {

/// Declaration of `serde_json::Number` so that it can stand in fields and
/// signatures; the crate never looks inside such a value.
#[verifier::external_type_specification]
#[verifier::external_body]
pub struct ExSerdeNumber(serde_json::Number);

/// A JSON number: a non-negative integer, a negative integer, or any other
/// number (kept opaquely as parsed).
#[derive(Debug, PartialEq)]
pub enum JsonNum {
    /// A number that is an integer in `0 ..= u64::MAX`.
    UInt(u64),
    /// A number that is a negative integer in `i64::MIN ..= -1`.
    Int(i64),
    /// Any other number, carried exactly as `serde_json` parsed or built it.
    Other(serde_json::Number),
}

/// One JSON value, fully owned.
///
/// An object keeps its members as a list of key/value pairs in the order they
/// were produced; `obj_get` looks a key up by first match.
#[derive(Debug, PartialEq)]
pub enum JsonValue {
    Null,
    Bool(bool),
    Num(JsonNum),
    Str(String),
    Arr(Vec<JsonValue>),
    Obj(Vec<(String, JsonValue)>),
}

/// The mathematical shape of a [`JsonValue`]: strings become `Seq<char>`,
/// vectors become `Seq`, numbers stay as they are.
#[verifier::ext_equal]
pub enum JsonValueView {
    Null,
    Bool(bool),
    Num(JsonNum),
    Str(Seq<char>),
    Arr(Seq<JsonValueView>),
    Obj(Seq<(Seq<char>, JsonValueView)>),
}

/// The view of a [`JsonValue`], taken structurally.
pub open spec fn value_view(v: JsonValue) -> JsonValueView
    decreases v,
    via value_view_decreases
{
    match v {
        JsonValue::Null => JsonValueView::Null,
        JsonValue::Bool(b) => JsonValueView::Bool(b),
        JsonValue::Num(n) => JsonValueView::Num(n),
        JsonValue::Str(s) => JsonValueView::Str(s@),
        JsonValue::Arr(a) => JsonValueView::Arr(values_view(a@)),
        JsonValue::Obj(o) => JsonValueView::Obj(members_view(o@)),
    }
}

/// The views of a sequence of values, elementwise.
pub open spec fn values_view(a: Seq<JsonValue>) -> Seq<JsonValueView>
    decreases a,
    via values_view_decreases
{
    if a.len() == 0 {
        Seq::empty()
    } else {
        values_view(a.drop_last()).push(value_view(a.last()))
    }
}

/// The views of a sequence of object members, elementwise.
pub open spec fn members_view(o: Seq<(String, JsonValue)>) -> Seq<(Seq<char>, JsonValueView)>
    decreases o,
    via members_view_decreases
{
    if o.len() == 0 {
        Seq::empty()
    } else {
        members_view(o.drop_last()).push((o.last().0@, value_view(o.last().1)))
    }
}

#[via_fn]
proof fn value_view_decreases(v: JsonValue) {
    match v {
        JsonValue::Arr(a) => {
            assert(decreases_to!(v => a));
            assert(decreases_to!(a => a@));
        }
        JsonValue::Obj(o) => {
            assert(decreases_to!(v => o));
            assert(decreases_to!(o => o@));
        }
        _ => {}
    }
}

#[via_fn]
proof fn values_view_decreases(a: Seq<JsonValue>) {
    broadcast use vstd::seq::axiom_seq_index_decreases;

    if a.len() > 0 {
        vstd::seq::axiom_seq_subrange_decreases(a, 0, a.len() - 1);
        assert(a.drop_last() == a.subrange(0, a.len() - 1));
        assert(decreases_to!(a => a.last()));
    }
}

#[via_fn]
proof fn members_view_decreases(o: Seq<(String, JsonValue)>) {
    broadcast use vstd::seq::axiom_seq_index_decreases;

    if o.len() > 0 {
        vstd::seq::axiom_seq_subrange_decreases(o, 0, o.len() - 1);
        assert(o.drop_last() == o.subrange(0, o.len() - 1));
        assert(decreases_to!(o => o.last()));
        assert(decreases_to!(o.last() => o.last().1));
    }
}

impl View for JsonValue {
    type V = JsonValueView;

    open spec fn view(&self) -> JsonValueView {
        value_view(*self)
    }
}

/// The length and the elements of `values_view` are those of the underlying
/// sequence, viewed elementwise.
pub proof fn lemma_values_view(a: Seq<JsonValue>)
    ensures
        values_view(a).len() == a.len(),
        forall|i: int| 0 <= i < a.len() ==> #[trigger] values_view(a)[i] == value_view(a[i]),
    decreases a.len(),
{
    if a.len() > 0 {
        lemma_values_view(a.drop_last());
    }
}

/// The length and the elements of `members_view` are those of the underlying
/// sequence, viewed elementwise.
pub proof fn lemma_members_view(o: Seq<(String, JsonValue)>)
    ensures
        members_view(o).len() == o.len(),
        forall|i: int| 0 <= i < o.len() ==> #[trigger] members_view(o)[i] == (
            o[i].0@,
            value_view(o[i].1),
        ),
    decreases o.len(),
{
    if o.len() > 0 {
        lemma_members_view(o.drop_last());
    }
}

/// The value of the first member of `o` whose key is `key`, or `Null` when no
/// member has that key.
pub open spec fn member_lookup(o: Seq<(Seq<char>, JsonValueView)>, key: Seq<char>) -> JsonValueView
    decreases o.len(),
{
    if o.len() == 0 {
        JsonValueView::Null
    } else if o[0].0 == key {
        o[0].1
    } else {
        member_lookup(o.drop_first(), key)
    }
}

/// Field access as the decoder sees it: the member named `key` of an object,
/// and `Null` for a missing member or a non-object — so an absent field and a
/// field set to `null` look alike.
pub open spec fn obj_get(v: JsonValueView, key: Seq<char>) -> JsonValueView {
    match v {
        JsonValueView::Obj(o) => member_lookup(o, key),
        _ => JsonValueView::Null,
    }
}

/// When no member among the first `i` has the key, the lookup is decided by
/// the remaining members alone.
proof fn lemma_member_lookup_skip(o: Seq<(Seq<char>, JsonValueView)>, key: Seq<char>, i: int)
    requires
        0 <= i <= o.len(),
        forall|j: int| 0 <= j < i ==> o[j].0 != key,
    ensures
        member_lookup(o, key) == member_lookup(o.skip(i), key),
    decreases i,
{
    if i > 0 {
        lemma_member_lookup_skip(o, key, i - 1);
        assert(o.skip(i - 1).len() > 0);
        assert(o.skip(i - 1)[0] == o[i - 1]);
        assert(o[i - 1].0 != key);
        assert(member_lookup(o.skip(i - 1), key) == member_lookup(
            o.skip(i - 1).drop_first(),
            key,
        ));
        assert(o.skip(i - 1).drop_first() =~= o.skip(i));
    } else {
        assert(o.skip(0) =~= o);
    }
}

/// When the member at index `i` is the first with the key, the lookup yields
/// its value.
pub proof fn lemma_member_lookup_at(
    o: Seq<(Seq<char>, JsonValueView)>,
    key: Seq<char>,
    i: int,
)
    requires
        0 <= i < o.len(),
        o[i].0 == key,
        forall|j: int| 0 <= j < i ==> (#[trigger] o[j]).0 != key,
    ensures
        member_lookup(o, key) == o[i].1,
{
    lemma_member_lookup_skip(o, key, i);
    assert(o.skip(i)[0] == o[i]);
}

/// Looks `key` up in `v`, returning the member value when `v` is an object
/// with such a member; `None` stands for the `Null` that `obj_get` yields.
pub fn obj_lookup<'a>(v: &'a JsonValue, key: &str) -> (r: Option<&'a JsonValue>)
    ensures
        obj_get(v@, key@) == (match r {
            Some(x) => x@,
            None => JsonValueView::Null,
        }),
{
    match v {
        JsonValue::Obj(pairs) => {
            proof {
                lemma_members_view(pairs@);
            }
            let key_owned: String = key.to_owned();
            let n: usize = pairs.len();
            let mut i: usize = 0;
            while i < n
                invariant
                    n == pairs@.len(),
                    0 <= i <= n,
                    key_owned@ == key@,
                    v@ == JsonValueView::Obj(members_view(pairs@)),
                    members_view(pairs@).len() == pairs@.len(),
                    forall|j: int| 0 <= j < pairs@.len() ==> #[trigger] members_view(pairs@)[j]
                        == (pairs@[j].0@, value_view(pairs@[j].1)),
                    forall|j: int| 0 <= j < i ==> #[trigger] members_view(pairs@)[j].0 != key@,
                decreases n - i,
            {
                if pairs[i].0 == key_owned {
                    proof {
                        lemma_member_lookup_skip(members_view(pairs@), key@, i as int);
                        assert(members_view(pairs@).skip(i as int)[0] == members_view(pairs@)[
                            i as int
                        ]);
                    }
                    return Some(&pairs[i].1);
                }
                i += 1;
            }
            proof {
                lemma_member_lookup_skip(members_view(pairs@), key@, n as int);
                assert(members_view(pairs@).skip(n as int).len() == 0);
            }
            None
        },
        _ => None,
    }
}

impl Clone for JsonNum {
    /// A clone of a number is the same number.
    fn clone(&self) -> (res: Self)
        ensures
            res == *self,
    {
        match self {
            JsonNum::UInt(u) => JsonNum::UInt(*u),
            JsonNum::Int(i) => JsonNum::Int(*i),
            JsonNum::Other(n) => JsonNum::Other(clone_number(n)),
        }
    }
}

/// Relies on `serde_json::Number`'s derived `Clone`: the clone is the same
/// number value.
#[verifier::external_body]
fn clone_number(n: &serde_json::Number) -> (res: serde_json::Number)
    ensures
        res == *n,
{
    n.clone()
}

} // verus!
