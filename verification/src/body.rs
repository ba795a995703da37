//! Construction of the request bodies that the Data API expects.
//!
//! A find request carries a `query` array of field-to-value objects and a
//! `sort` array of `{fieldName, sortOrder}` objects; a record creation or
//! update carries the new fields under `fieldData`. Each builder states the
//! exact JSON value it returns.

use vstd::prelude::*;
use crate::json::{
    JsonValue, JsonView, views_of, member_views_of, lemma_views_push, lemma_member_views_push,
};

verus! {

broadcast use vstd::std_specs::vec::group_vec_axioms;

/// The members of a query entry: each field name with its search text.
pub open spec fn string_pair_views(pairs: Seq<(String, String)>) -> Seq<(Seq<char>, JsonView)> {
    Seq::new(pairs.len(), |i: int| (pairs[i].0@, JsonView::Str(pairs[i].1@)))
}

/// The `query` array of a find request: one object per field-to-value map.
pub open spec fn query_entry_views(query: Seq<Vec<(String, String)>>) -> Seq<JsonView> {
    Seq::new(query.len(), |i: int| JsonView::Obj(string_pair_views(query[i]@)))
}

/// The sort order the upstream API expects: `ascend` or `descend`.
pub open spec fn sort_order_text(ascending: bool) -> Seq<char> {
    if ascending {
        "ascend"@
    } else {
        "descend"@
    }
}

/// One entry of the `sort` array: `{"fieldName": field, "sortOrder": order}`.
pub open spec fn sort_entry_view(field: Seq<char>, ascending: bool) -> JsonView {
    JsonView::Obj(
        seq![
            ("fieldName"@, JsonView::Str(field)),
            ("sortOrder"@, JsonView::Str(sort_order_text(ascending))),
        ],
    )
}

/// The `sort` array of a find request: one entry per sort field, all with the
/// same order.
pub open spec fn sort_entry_views(sort: Seq<String>, ascending: bool) -> Seq<JsonView> {
    Seq::new(sort.len(), |i: int| sort_entry_view(sort[i]@, ascending))
}

/// The body of a find request: the query entries and the sort entries.
pub open spec fn find_body_view(
    query: Seq<Vec<(String, String)>>,
    sort: Seq<String>,
    ascending: bool,
) -> JsonView {
    JsonView::Obj(
        seq![
            ("query"@, JsonView::Arr(query_entry_views(query))),
            ("sort"@, JsonView::Arr(sort_entry_views(sort, ascending))),
        ],
    )
}

/// The `query` array of an advanced find request: one single-member object
/// per field, with the field's value as given.
pub open spec fn advanced_query_views(fields: Seq<(String, JsonValue)>) -> Seq<JsonView> {
    Seq::new(fields.len(), |i: int| JsonView::Obj(seq![(fields[i].0@, fields[i].1@)]))
}

/// The body of an advanced find request: the query entries, and the sort
/// entries only where a sort field was given.
pub open spec fn advanced_find_body_view(
    fields: Seq<(String, JsonValue)>,
    sort: Seq<String>,
    ascending: bool,
) -> JsonView {
    if sort.len() == 0 {
        JsonView::Obj(seq![("query"@, JsonView::Arr(advanced_query_views(fields)))])
    } else {
        JsonView::Obj(
            seq![
                ("query"@, JsonView::Arr(advanced_query_views(fields))),
                ("sort"@, JsonView::Arr(sort_entry_views(sort, ascending))),
            ],
        )
    }
}

/// The body of a record creation or update: the fields under `fieldData`.
pub open spec fn field_data_body_view(fields: Seq<(String, JsonValue)>) -> JsonView {
    JsonView::Obj(seq![("fieldData"@, JsonView::Obj(member_views_of(fields)))])
}

fn string_pairs_to_members(pairs: &Vec<(String, String)>) -> (r: Vec<(String, JsonValue)>)
    ensures
        member_views_of(r@) == string_pair_views(pairs@),
{
    let mut members: Vec<(String, JsonValue)> = Vec::new();
    let n = pairs.len();
    let mut i: usize = 0;
    while i < n
        invariant
            n == pairs@.len(),
            i <= n,
            member_views_of(members@) == string_pair_views(pairs@).subrange(0, i as int),
        decreases n - i,
    {
        let name = pairs[i].0.clone();
        let text = pairs[i].1.clone();
        proof {
            lemma_member_views_push(members@, (name, JsonValue::Str(text)));
            assert(string_pair_views(pairs@).subrange(0, i + 1 as int) =~= string_pair_views(
                pairs@,
            ).subrange(0, i as int).push((pairs@[i as int].0@, JsonView::Str(pairs@[i as int].1@))));
        }
        members.push((name, JsonValue::Str(text)));
        i = i + 1;
    }
    proof {
        assert(string_pair_views(pairs@).subrange(0, n as int) == string_pair_views(pairs@));
    }
    members
}

fn build_query_entries(query: &Vec<Vec<(String, String)>>) -> (r: Vec<JsonValue>)
    ensures
        views_of(r@) == query_entry_views(query@),
{
    let mut entries: Vec<JsonValue> = Vec::new();
    let n = query.len();
    let mut i: usize = 0;
    while i < n
        invariant
            n == query@.len(),
            i <= n,
            views_of(entries@) == query_entry_views(query@).subrange(0, i as int),
        decreases n - i,
    {
        let members = string_pairs_to_members(&query[i]);
        proof {
            lemma_views_push(entries@, JsonValue::Obj(members));
            assert(query_entry_views(query@).subrange(0, i + 1 as int) =~= query_entry_views(
                query@,
            ).subrange(0, i as int).push(JsonView::Obj(string_pair_views(query@[i as int]@))));
        }
        entries.push(JsonValue::Obj(members));
        i = i + 1;
    }
    proof {
        assert(query_entry_views(query@).subrange(0, n as int) == query_entry_views(query@));
    }
    entries
}

fn build_sort_entry(field: &String, ascending: bool) -> (r: JsonValue)
    ensures
        r@ == sort_entry_view(field@, ascending),
{
    let order = if ascending {
        "ascend"
    } else {
        "descend"
    };
    let mut members: Vec<(String, JsonValue)> = Vec::new();
    let name_pair = (String::from_str("fieldName"), JsonValue::Str(field.clone()));
    proof {
        lemma_member_views_push(members@, name_pair);
    }
    members.push(name_pair);
    let order_pair = (String::from_str("sortOrder"), JsonValue::Str(String::from_str(order)));
    proof {
        lemma_member_views_push(members@, order_pair);
    }
    members.push(order_pair);
    proof {
        assert(member_views_of(members@) =~= seq![
            ("fieldName"@, JsonView::Str(field@)),
            ("sortOrder"@, JsonView::Str(sort_order_text(ascending))),
        ]);
    }
    JsonValue::Obj(members)
}

fn build_sort_entries(sort: &Vec<String>, ascending: bool) -> (r: Vec<JsonValue>)
    ensures
        views_of(r@) == sort_entry_views(sort@, ascending),
{
    let mut entries: Vec<JsonValue> = Vec::new();
    let n = sort.len();
    let mut i: usize = 0;
    while i < n
        invariant
            n == sort@.len(),
            i <= n,
            views_of(entries@) == sort_entry_views(sort@, ascending).subrange(0, i as int),
        decreases n - i,
    {
        let entry = build_sort_entry(&sort[i], ascending);
        proof {
            lemma_views_push(entries@, entry);
            assert(sort_entry_views(sort@, ascending).subrange(0, i + 1 as int)
                =~= sort_entry_views(sort@, ascending).subrange(0, i as int).push(
                sort_entry_view(sort@[i as int]@, ascending),
            ));
        }
        entries.push(entry);
        i = i + 1;
    }
    proof {
        assert(sort_entry_views(sort@, ascending).subrange(0, n as int) == sort_entry_views(
            sort@,
            ascending,
        ));
    }
    entries
}

/// Builds the body of a find request from the query maps, the sort fields and
/// the sort direction.
pub fn build_find_body(
    query: &Vec<Vec<(String, String)>>,
    sort: &Vec<String>,
    ascending: bool,
) -> (r: JsonValue)
    ensures
        r@ == find_body_view(query@, sort@, ascending),
{
    let query_entries = build_query_entries(query);
    let sort_entries = build_sort_entries(sort, ascending);
    let mut members: Vec<(String, JsonValue)> = Vec::new();
    let query_pair = (String::from_str("query"), JsonValue::Arr(query_entries));
    proof {
        lemma_member_views_push(members@, query_pair);
    }
    members.push(query_pair);
    let sort_pair = (String::from_str("sort"), JsonValue::Arr(sort_entries));
    proof {
        lemma_member_views_push(members@, sort_pair);
    }
    members.push(sort_pair);
    proof {
        assert(member_views_of(members@) =~= seq![
            ("query"@, JsonView::Arr(query_entry_views(query@))),
            ("sort"@, JsonView::Arr(sort_entry_views(sort@, ascending))),
        ]);
    }
    JsonValue::Obj(members)
}

/// Builds the body of an advanced find request from the query fields, the
/// sort fields and the sort direction; without sort fields the body carries
/// no `sort` member.
pub fn build_advanced_find_body(
    fields: Vec<(String, JsonValue)>,
    sort: &Vec<String>,
    ascending: bool,
) -> (r: JsonValue)
    ensures
        r@ == advanced_find_body_view(fields@, sort@, ascending),
{
    let ghost orig = fields@;
    let mut remaining = fields;
    let mut entries: Vec<JsonValue> = Vec::new();
    while remaining.len() > 0
        invariant
            entries@.len() <= orig.len(),
            remaining@ == orig.subrange(entries@.len() as int, orig.len() as int),
            views_of(entries@) == advanced_query_views(orig).subrange(0, entries@.len() as int),
        decreases remaining@.len(),
    {
        let ghost k = entries@.len() as int;
        let pair = remaining.remove(0);
        proof {
            assert(pair == orig[k]);
        }
        let mut members: Vec<(String, JsonValue)> = Vec::new();
        proof {
            assert(member_views_of(Seq::<(String, JsonValue)>::empty())
                =~= Seq::<(Seq<char>, JsonView)>::empty());
            lemma_member_views_push(members@, pair);
        }
        let ghost pair_name = pair.0@;
        let ghost pair_val = pair.1@;
        members.push(pair);
        let entry = JsonValue::Obj(members);
        proof {
            assert(member_views_of(members@) =~= seq![(pair_name, pair_val)]);
            lemma_views_push(entries@, entry);
            assert(advanced_query_views(orig).subrange(0, k + 1) =~~= advanced_query_views(
                orig,
            ).subrange(0, k).push(JsonView::Obj(seq![(orig[k].0@, orig[k].1@)])));
            assert(remaining@ =~= orig.subrange(k + 1, orig.len() as int));
        }
        entries.push(entry);
    }
    proof {
        assert(advanced_query_views(orig).subrange(0, orig.len() as int) == advanced_query_views(
            orig,
        ));
    }
    let mut members: Vec<(String, JsonValue)> = Vec::new();
    let query_pair = (String::from_str("query"), JsonValue::Arr(entries));
    proof {
        lemma_member_views_push(members@, query_pair);
    }
    members.push(query_pair);
    if sort.len() > 0 {
        let sort_entries = build_sort_entries(sort, ascending);
        let sort_pair = (String::from_str("sort"), JsonValue::Arr(sort_entries));
        proof {
            lemma_member_views_push(members@, sort_pair);
        }
        members.push(sort_pair);
        proof {
            assert(member_views_of(members@) =~= seq![
                ("query"@, JsonView::Arr(advanced_query_views(orig))),
                ("sort"@, JsonView::Arr(sort_entry_views(sort@, ascending))),
            ]);
        }
        JsonValue::Obj(members)
    } else {
        proof {
            assert(member_views_of(members@) =~= seq![
                ("query"@, JsonView::Arr(advanced_query_views(orig))),
            ]);
        }
        JsonValue::Obj(members)
    }
}

/// Builds the body of a record creation or update: the given fields under
/// `fieldData`.
pub fn build_field_data_body(fields: Vec<(String, JsonValue)>) -> (r: JsonValue)
    ensures
        r@ == field_data_body_view(fields@),
{
    let ghost fview = member_views_of(fields@);
    let inner = JsonValue::Obj(fields);
    let mut members: Vec<(String, JsonValue)> = Vec::new();
    let data_pair = (String::from_str("fieldData"), inner);
    proof {
        lemma_member_views_push(members@, data_pair);
    }
    members.push(data_pair);
    proof {
        assert(member_views_of(members@) =~= seq![("fieldData"@, JsonView::Obj(fview))]);
    }
    JsonValue::Obj(members)
}

} // verus!
