//! The library's own JSON value type and its mathematical view.
//!
//! Record data, request bodies and upstream responses are all JSON. The
//! library holds them as [`JsonValue`], a plain recursive datatype. Numbers
//! carry their decimal literal as written, so any JSON number can pass
//! through the library without a floating-point type. An object holds its
//! members as a vector of pairs in insertion order.

use vstd::prelude::*;
use crate::text::str_eq;

verus! {

broadcast use vstd::std_specs::vec::group_vec_axioms;

/// A JSON value as the library holds it.
#[derive(Debug)]
pub enum JsonValue {
    Null,
    Bool(bool),
    /// A number, as its literal text (for example `42` or `-1.5e3`).
    Num(String),
    Str(String),
    Arr(Vec<JsonValue>),
    Obj(Vec<(String, JsonValue)>),
}

/// The mathematical view of a [`JsonValue`]: the same tree over `Seq`.
pub enum JsonView {
    Null,
    Bool(bool),
    Num(Seq<char>),
    Str(Seq<char>),
    Arr(Seq<JsonView>),
    Obj(Seq<(Seq<char>, JsonView)>),
}

/// The view of a JSON value.
pub open spec fn view_of(v: JsonValue) -> JsonView
    decreases v,
{
    match v {
        JsonValue::Null => JsonView::Null,
        JsonValue::Bool(b) => JsonView::Bool(b),
        JsonValue::Num(s) => JsonView::Num(s@),
        JsonValue::Str(s) => JsonView::Str(s@),
        JsonValue::Arr(elems) => JsonView::Arr(views_of(elems@)),
        JsonValue::Obj(pairs) => JsonView::Obj(member_views_of(pairs@)),
    }
}

/// The views of a sequence of JSON values, in order.
pub open spec fn views_of(elems: Seq<JsonValue>) -> Seq<JsonView>
    decreases elems,
{
    if elems.len() == 0 {
        Seq::empty()
    } else {
        views_of(elems.drop_last()).push(view_of(elems.last()))
    }
}

/// The views of a sequence of object members, in order.
pub open spec fn member_views_of(pairs: Seq<(String, JsonValue)>) -> Seq<(Seq<char>, JsonView)>
    decreases pairs,
{
    if pairs.len() == 0 {
        Seq::empty()
    } else {
        member_views_of(pairs.drop_last()).push((pairs.last().0@, view_of(pairs.last().1)))
    }
}

impl View for JsonValue {
    type V = JsonView;

    open spec fn view(&self) -> JsonView {
        view_of(*self)
    }
}

/// `views_of` maps the sequence element by element.
pub proof fn lemma_views_of(elems: Seq<JsonValue>)
    ensures
        views_of(elems).len() == elems.len(),
        forall|i: int| 0 <= i < elems.len() ==> views_of(elems)[i] == elems[i]@,
    decreases elems.len(),
{
    if elems.len() > 0 {
        lemma_views_of(elems.drop_last());
        assert forall|i: int| 0 <= i < elems.len() implies views_of(elems)[i] == elems[i]@ by {
            if i < elems.len() - 1 {
                assert(elems.drop_last()[i] == elems[i]);
            } else {
                assert(elems.last() == elems[i]);
            }
        }
    }
}

/// `member_views_of` maps the sequence member by member.
pub proof fn lemma_member_views_of(pairs: Seq<(String, JsonValue)>)
    ensures
        member_views_of(pairs).len() == pairs.len(),
        forall|i: int| 0 <= i < pairs.len()
            ==> member_views_of(pairs)[i] == (pairs[i].0@, pairs[i].1@),
    decreases pairs.len(),
{
    if pairs.len() > 0 {
        lemma_member_views_of(pairs.drop_last());
        assert forall|i: int| 0 <= i < pairs.len() implies member_views_of(pairs)[i] == (
        pairs[i].0@,
        pairs[i].1@,
        ) by {
            if i < pairs.len() - 1 {
                assert(pairs.drop_last()[i] == pairs[i]);
            } else {
                assert(pairs.last() == pairs[i]);
            }
        }
    }
}

/// Appending an element appends its view.
pub proof fn lemma_views_push(elems: Seq<JsonValue>, e: JsonValue)
    ensures
        views_of(elems.push(e)) =~= views_of(elems).push(view_of(e)),
{
    assert(elems.push(e).drop_last() =~= elems);
    assert(elems.push(e).last() == e);
}

/// Appending a member appends its view.
pub proof fn lemma_member_views_push(pairs: Seq<(String, JsonValue)>, p: (String, JsonValue))
    ensures
        member_views_of(pairs.push(p)) =~= member_views_of(pairs).push((p.0@, view_of(p.1))),
{
    assert(pairs.push(p).drop_last() =~= pairs);
    assert(pairs.push(p).last() == p);
}

/// The member of an object under `key`: the value of the first pair whose
/// name is `key`, or nothing. On anything but an object: nothing.
pub open spec fn lookup_field(v: JsonView, key: Seq<char>) -> Option<JsonView> {
    match v {
        JsonView::Obj(pairs) => lookup_pairs(pairs, key),
        _ => None,
    }
}

/// The value of the first pair in `pairs` whose name is `key`.
pub open spec fn lookup_pairs(pairs: Seq<(Seq<char>, JsonView)>, key: Seq<char>) -> Option<
    JsonView,
>
    decreases pairs.len(),
{
    if pairs.len() == 0 {
        None
    } else if pairs[0].0 == key {
        Some(pairs[0].1)
    } else {
        lookup_pairs(pairs.drop_first(), key)
    }
}

proof fn lemma_lookup_pairs_hit(pairs: Seq<(Seq<char>, JsonView)>, key: Seq<char>, i: int)
    requires
        0 <= i < pairs.len(),
        pairs[i].0 == key,
        forall|j: int| 0 <= j < i ==> pairs[j].0 != key,
    ensures
        lookup_pairs(pairs, key) == Some(pairs[i].1),
    decreases i,
{
    if i > 0 {
        lemma_lookup_pairs_hit(pairs.drop_first(), key, i - 1);
    }
}

proof fn lemma_lookup_pairs_miss(pairs: Seq<(Seq<char>, JsonView)>, key: Seq<char>)
    requires
        forall|j: int| 0 <= j < pairs.len() ==> pairs[j].0 != key,
    ensures
        lookup_pairs(pairs, key) is None,
    decreases pairs.len(),
{
    if pairs.len() > 0 {
        lemma_lookup_pairs_miss(pairs.drop_first(), key);
    }
}

impl JsonValue {
    /// Borrows the member of this object under `key`: the value of the first
    /// pair whose name is `key`.
    pub fn get_field<'a>(&'a self, key: &str) -> (r: Option<&'a JsonValue>)
        ensures
            match r {
                Some(f) => lookup_field(self@, key@) == Some(f@),
                None => lookup_field(self@, key@) is None,
            },
    {
        match self {
            JsonValue::Obj(pairs) => {
                proof {
                    lemma_member_views_of(pairs@);
                }
                let n = pairs.len();
                let mut i: usize = 0;
                while i < n
                    invariant
                        n == pairs@.len(),
                        i <= n,
                        self@ == JsonView::Obj(member_views_of(pairs@)),
                        member_views_of(pairs@).len() == pairs@.len(),
                        forall|j: int| 0 <= j < pairs@.len()
                            ==> member_views_of(pairs@)[j] == (pairs@[j].0@, pairs@[j].1@),
                        forall|j: int| 0 <= j < i ==> member_views_of(pairs@)[j].0 != key@,
                    decreases n - i,
                {
                    if str_eq(pairs[i].0.as_str(), key) {
                        proof {
                            lemma_lookup_pairs_hit(member_views_of(pairs@), key@, i as int);
                        }
                        return Some(&pairs[i].1);
                    }
                    i = i + 1;
                }
                proof {
                    lemma_lookup_pairs_miss(member_views_of(pairs@), key@);
                }
                None
            },
            _ => None,
        }
    }

    /// Moves the member of this object under `key` out of the value: the
    /// value of the first pair whose name is `key`.
    pub fn take_field(self, key: &str) -> (r: Option<JsonValue>)
        ensures
            match r {
                Some(f) => lookup_field(self@, key@) == Some(f@),
                None => lookup_field(self@, key@) is None,
            },
    {
        let ghost sview = self@;
        match self {
            JsonValue::Obj(mut pairs) => {
                proof {
                    lemma_member_views_of(pairs@);
                }
                let ghost orig = pairs@;
                proof {
                    assert(sview == JsonView::Obj(member_views_of(orig)));
                }
                let n = pairs.len();
                let mut i: usize = 0;
                while i < n
                    invariant
                        n == pairs@.len(),
                        i <= n,
                        pairs@ == orig,
                        sview == self@,
                        sview == JsonView::Obj(member_views_of(orig)),
                        member_views_of(orig).len() == orig.len(),
                        forall|j: int| 0 <= j < orig.len()
                            ==> member_views_of(orig)[j] == (orig[j].0@, orig[j].1@),
                        forall|j: int| 0 <= j < i ==> member_views_of(orig)[j].0 != key@,
                    decreases n - i,
                {
                    if str_eq(pairs[i].0.as_str(), key) {
                        proof {
                            lemma_lookup_pairs_hit(member_views_of(orig), key@, i as int);
                        }
                        let pair = pairs.remove(i);
                        return Some(pair.1);
                    }
                    i = i + 1;
                }
                proof {
                    lemma_lookup_pairs_miss(member_views_of(orig), key@);
                }
                None
            },
            _ => None,
        }
    }
}

} // verus!
