//! Unwrapping of the `{ "response": ..., "messages": ... }` envelope that
//! every Data API reply carries.
//!
//! Each function states exactly which member it reads, what shape it expects,
//! and which error it returns when the member is absent or of another shape.

use vstd::prelude::*;
use crate::error::FmError;
use crate::json::{JsonValue, JsonView, lookup_field, views_of, lemma_views_of};
use crate::text::{is_dec_numeral, dec_value, parse_u64, string_views};

verus! {

broadcast use vstd::std_specs::vec::group_vec_axioms;

/// The member of the envelope's `response` object under `key`.
pub open spec fn response_field(v: JsonView, key: Seq<char>) -> Option<JsonView> {
    match lookup_field(v, "response"@) {
        Some(resp) => lookup_field(resp, key),
        None => None,
    }
}

/// Borrows the member of the envelope's `response` object under `key`.
fn response_member<'a>(response: &'a JsonValue, key: &str) -> (r: Option<&'a JsonValue>)
    ensures
        match r {
            Some(f) => response_field(response@, key@) == Some(f@),
            None => response_field(response@, key@) is None,
        },
{
    match response.get_field("response") {
        Some(resp) => resp.get_field(key),
        None => None,
    }
}

/// Moves the member of the envelope's `response` object under `key` out of
/// the reply.
fn take_response_member(response: JsonValue, key: &str) -> (r: Option<JsonValue>)
    ensures
        match r {
            Some(f) => response_field(response@, key@) == Some(f@),
            None => response_field(response@, key@) is None,
        },
{
    match response.take_field("response") {
        Some(resp) => resp.take_field(key),
        None => None,
    }
}

/// The session token of an authentication reply: the string under
/// `response.token`.
pub open spec fn token_of(v: JsonView) -> Option<Seq<char>> {
    match response_field(v, "token"@) {
        Some(JsonView::Str(s)) => Some(s),
        _ => None,
    }
}

/// Reads the session token out of an authentication reply. Returns it exactly
/// when `response.token` is present and a string; otherwise the token was not
/// granted.
pub fn token_from_response(response: &JsonValue) -> (r: Result<String, FmError>)
    ensures
        match r {
            Ok(t) => token_of(response@) == Some(t@),
            Err(e) => token_of(response@) is None && e == FmError::TokenNotFound,
        },
{
    match response_member(response, "token") {
        Some(JsonValue::Str(s)) => Ok(s.clone()),
        _ => Err(FmError::TokenNotFound),
    }
}

/// The record list of a reply: the array under `response.data`; an empty list
/// where `response.data` is present but not an array; nothing where it is
/// absent.
pub open spec fn records_of(v: JsonView) -> Option<Seq<JsonView>> {
    match response_field(v, "data"@) {
        Some(JsonView::Arr(elems)) => Some(elems),
        Some(_) => Some(Seq::empty()),
        None => None,
    }
}

fn data_records(response: JsonValue) -> (r: Option<Vec<JsonValue>>)
    ensures
        r is Some <==> records_of(response@) is Some,
        r is Some ==> views_of(r->0@) == records_of(response@)->0,
{
    match take_response_member(response, "data") {
        Some(data) => match data {
            JsonValue::Arr(elems) => Some(elems),
            _ => Some(Vec::new()),
        },
        None => None,
    }
}

/// Reads the records out of a record-range reply: the array under
/// `response.data`, an empty list where that member is not an array, and
/// the record-retrieval error where it is absent.
pub fn records_from_response(response: JsonValue) -> (r: Result<Vec<JsonValue>, FmError>)
    ensures
        match r {
            Ok(records) => records_of(response@) is Some && views_of(records@) == records_of(
                response@,
            )->0,
            Err(e) => records_of(response@) is None && e == FmError::RecordsNotFound,
        },
{
    match data_records(response) {
        Some(records) => Ok(records),
        None => Err(FmError::RecordsNotFound),
    }
}

/// Reads the records out of a find reply, exactly as
/// [`records_from_response`] does, with the search-result error where
/// `response.data` is absent.
pub fn search_results_from_response(response: JsonValue) -> (r: Result<Vec<JsonValue>, FmError>)
    ensures
        match r {
            Ok(records) => records_of(response@) is Some && views_of(records@) == records_of(
                response@,
            )->0,
            Err(e) => records_of(response@) is None && e == FmError::SearchResultsNotFound,
        },
{
    match data_records(response) {
        Some(records) => Ok(records),
        None => Err(FmError::SearchResultsNotFound),
    }
}

/// The record list of an advanced-search reply: the array under
/// `response.data`, and nothing where that member is absent or not an array.
pub open spec fn advanced_records_of(v: JsonView) -> Option<Seq<JsonView>> {
    match response_field(v, "data"@) {
        Some(JsonView::Arr(elems)) => Some(elems),
        _ => None,
    }
}

/// Reads the records out of an advanced-search reply. Unlike a plain find
/// reply, a `response.data` member that is not an array is an error here.
pub fn advanced_search_results_from_response(response: JsonValue) -> (r: Result<
    Vec<JsonValue>,
    FmError,
>)
    ensures
        match r {
            Ok(records) => advanced_records_of(response@) is Some && views_of(records@)
                == advanced_records_of(response@)->0,
            Err(e) => advanced_records_of(response@) is None
                && e == FmError::AdvancedSearchResultsNotFound,
        },
{
    match take_response_member(response, "data") {
        Some(data) => match data {
            JsonValue::Arr(elems) => Ok(elems),
            _ => Err(FmError::AdvancedSearchResultsNotFound),
        },
        None => Err(FmError::AdvancedSearchResultsNotFound),
    }
}

/// The total record count of a record reply: the value under
/// `response.dataInfo.totalRecordCount`, a number whose literal is an
/// unsigned decimal numeral that fits in a `u64`.
pub open spec fn total_count_of(v: JsonView) -> Option<nat> {
    match response_field(v, "dataInfo"@) {
        Some(data_info) => match lookup_field(data_info, "totalRecordCount"@) {
            Some(JsonView::Num(lit)) => if is_dec_numeral(lit) && dec_value(lit) <= u64::MAX {
                Some(dec_value(lit))
            } else {
                None
            },
            _ => None,
        },
        None => None,
    }
}

/// Reads the total record count out of a record reply.
pub fn total_count_from_response(response: &JsonValue) -> (r: Result<u64, FmError>)
    ensures
        match r {
            Ok(count) => total_count_of(response@) == Some(count as nat),
            Err(e) => total_count_of(response@) is None && e == FmError::CountNotFound,
        },
{
    match response_member(response, "dataInfo") {
        Some(data_info) => match data_info.get_field("totalRecordCount") {
            Some(JsonValue::Num(lit)) => match parse_u64(lit.as_str()) {
                Some(count) => Ok(count),
                None => Err(FmError::CountNotFound),
            },
            _ => Err(FmError::CountNotFound),
        },
        None => Err(FmError::CountNotFound),
    }
}

/// The id of a freshly added record: the string under `response.recordId`,
/// read as an unsigned decimal numeral that fits in a `u64`.
pub open spec fn added_record_id_of(v: JsonView) -> Option<nat> {
    match response_field(v, "recordId"@) {
        Some(JsonView::Str(s)) => if is_dec_numeral(s) && dec_value(s) <= u64::MAX {
            Some(dec_value(s))
        } else {
            None
        },
        _ => None,
    }
}

/// Reads the id of a freshly added record out of a creation reply. Nothing
/// comes back where `response.recordId` is absent, not a string, or not a
/// numeral.
pub fn added_record_id(response: &JsonValue) -> (r: Option<u64>)
    ensures
        r is Some <==> added_record_id_of(response@) is Some,
        r is Some ==> r->0 as nat == added_record_id_of(response@)->0,
{
    match response_member(response, "recordId") {
        Some(JsonValue::Str(s)) => parse_u64(s.as_str()),
        _ => None,
    }
}

/// The first record of a reply: the first element of the array under
/// `response.data`.
pub open spec fn first_record_of(v: JsonView) -> Option<JsonView> {
    match response_field(v, "data"@) {
        Some(JsonView::Arr(elems)) => if elems.len() > 0 {
            Some(elems[0])
        } else {
            None
        },
        _ => None,
    }
}

/// Reads the one record out of a get-by-id reply: the first element of the
/// array under `response.data`. Where `response.data` is absent the record
/// could not be read at all; where it is empty or not an array, no record
/// was found.
pub fn single_record_from_response(response: JsonValue) -> (r: Result<JsonValue, FmError>)
    ensures
        match r {
            Ok(record) => first_record_of(response@) == Some(record@),
            Err(e) => first_record_of(response@) is None && (response_field(response@, "data"@)
                is None ==> e == FmError::RecordDataNotFound) && (response_field(
                response@,
                "data"@,
            ) is Some ==> e == FmError::RecordNotFound),
        },
{
    match take_response_member(response, "data") {
        Some(data) => match data {
            JsonValue::Arr(mut elems) => {
                if elems.len() > 0 {
                    proof {
                        lemma_views_of(elems@);
                    }
                    let first = elems.remove(0);
                    Ok(first)
                } else {
                    Err(FmError::RecordNotFound)
                }
            },
            _ => Err(FmError::RecordNotFound),
        },
        None => Err(FmError::RecordDataNotFound),
    }
}

/// Judges a delete reply: any JSON object counts as success and becomes the
/// value `{"success":true}`; anything else is the delete failure.
pub fn delete_result(response: &JsonValue) -> (r: Result<JsonValue, FmError>)
    ensures
        match r {
            Ok(ok) => response@ is Obj && ok@ == JsonView::Obj(
                seq![("success"@, JsonView::Bool(true))],
            ),
            Err(e) => !(response@ is Obj) && e == FmError::DeleteFailed,
        },
{
    match response {
        JsonValue::Obj(_) => {
            let mut pairs: Vec<(String, JsonValue)> = Vec::new();
            pairs.push((String::from_str("success"), JsonValue::Bool(true)));
            let ok = JsonValue::Obj(pairs);
            proof {
                let ps = pairs@;
                assert(ps.drop_last() =~= Seq::<(String, JsonValue)>::empty());
                assert(crate::json::member_views_of(Seq::<(String, JsonValue)>::empty())
                    =~= Seq::<(Seq<char>, JsonView)>::empty());
                assert(ps.last().0@ == "success"@);
                assert(crate::json::view_of(ps.last().1) == JsonView::Bool(true));
                assert(crate::json::member_views_of(ps) =~= seq![
                    ("success"@, JsonView::Bool(true)),
                ]);
            }
            Ok(ok)
        },
        _ => Err(FmError::DeleteFailed),
    }
}

/// The text under `recordId` in one record, where it is a string.
pub open spec fn record_id_text_of(v: JsonView) -> Option<Seq<char>> {
    match lookup_field(v, "recordId"@) {
        Some(JsonView::Str(s)) => Some(s),
        _ => None,
    }
}

/// Reads the id a record must be deleted under: the string under `recordId`,
/// as an unsigned decimal numeral. A record without a string `recordId` has
/// no id; one whose id does not read as a `u64` numeral is invalid.
pub fn record_delete_id(record: &JsonValue) -> (r: Result<u64, FmError>)
    ensures
        match r {
            Ok(id) => {
                &&& record_id_text_of(record@) is Some
                &&& is_dec_numeral(record_id_text_of(record@)->0)
                &&& dec_value(record_id_text_of(record@)->0) == id as nat
            },
            Err(e) => match record_id_text_of(record@) {
                Some(t) => !(is_dec_numeral(t) && dec_value(t) <= u64::MAX) && e
                    == FmError::RecordIdInvalid,
                None => e == FmError::RecordIdMissing,
            },
        },
{
    match record.get_field("recordId") {
        Some(JsonValue::Str(s)) => match parse_u64(s.as_str()) {
            Some(id) => Ok(id),
            None => Err(FmError::RecordIdInvalid),
        },
        _ => Err(FmError::RecordIdMissing),
    }
}

/// The `name` strings of the elements of a listing array, in order, skipping
/// any element without a string `name`.
pub open spec fn names_of(elems: Seq<JsonView>) -> Seq<Seq<char>>
    decreases elems.len(),
{
    if elems.len() == 0 {
        Seq::empty()
    } else {
        names_of(elems.drop_last()) + (match lookup_field(elems.last(), "name"@) {
            Some(JsonView::Str(s)) => seq![s],
            _ => Seq::empty(),
        })
    }
}

/// The names in a listing reply: the `name` strings of the array under
/// `response.{key}`, and nothing where that member is absent or not an array.
pub open spec fn listing_names_of(v: JsonView, key: Seq<char>) -> Option<Seq<Seq<char>>> {
    match response_field(v, key) {
        Some(JsonView::Arr(elems)) => Some(names_of(elems)),
        _ => None,
    }
}

fn listing_names(response: &JsonValue, key: &str) -> (r: Option<Vec<String>>)
    ensures
        r is Some <==> listing_names_of(response@, key@) is Some,
        r is Some ==> string_views(r->0@) == listing_names_of(response@, key@)->0,
{
    match response_member(response, key) {
        Some(listing) => match listing {
            JsonValue::Arr(elems) => {
                let ghost velems = views_of(elems@);
                proof {
                    lemma_views_of(elems@);
                }
                let mut names: Vec<String> = Vec::new();
                let n = elems.len();
                let mut i: usize = 0;
                while i < n
                    invariant
                        n == elems@.len(),
                        i <= n,
                        velems.len() == elems@.len(),
                        forall|j: int| 0 <= j < velems.len() ==> velems[j] == elems@[j]@,
                        string_views(names@) == names_of(velems.subrange(0, i as int)),
                    decreases n - i,
                {
                    match elems[i].get_field("name") {
                        Some(JsonValue::Str(s)) => {
                            names.push(s.clone());
                        },
                        _ => (),
                    }
                    proof {
                        let pref = velems.subrange(0, i + 1 as int);
                        assert(pref.drop_last() == velems.subrange(0, i as int));
                        assert(pref.last() == elems@[i as int]@);
                        assert(string_views(names@) =~= names_of(pref));
                    }
                    i = i + 1;
                }
                proof {
                    assert(velems.subrange(0, n as int) == velems);
                }
                Some(names)
            },
            _ => None,
        },
        None => None,
    }
}

/// Reads the database names out of a database-listing reply: the `name`
/// strings of the array under `response.databases`.
pub fn database_names_from_response(response: &JsonValue) -> (r: Result<Vec<String>, FmError>)
    ensures
        match r {
            Ok(names) => listing_names_of(response@, "databases"@) is Some && string_views(names@)
                == listing_names_of(response@, "databases"@)->0,
            Err(e) => listing_names_of(response@, "databases"@) is None && e
                == FmError::DatabasesNotFound,
        },
{
    match listing_names(response, "databases") {
        Some(names) => Ok(names),
        None => Err(FmError::DatabasesNotFound),
    }
}

/// Reads the layout names out of a layout-listing reply: the `name` strings
/// of the array under `response.layouts`.
pub fn layout_names_from_response(response: &JsonValue) -> (r: Result<Vec<String>, FmError>)
    ensures
        match r {
            Ok(names) => listing_names_of(response@, "layouts"@) is Some && string_views(names@)
                == listing_names_of(response@, "layouts"@)->0,
            Err(e) => listing_names_of(response@, "layouts"@) is None && e
                == FmError::LayoutsNotFound,
        },
{
    match listing_names(response, "layouts") {
        Some(names) => Ok(names),
        None => Err(FmError::LayoutsNotFound),
    }
}

} // verus!

verus! {

/// Whether a field name names a global field: it starts with `g_`.
pub open spec fn is_global_name(s: Seq<char>) -> bool {
    s.len() >= 2 && s[0] == 'g' && s[1] == '_'
}

/// The field names of an object's members, in order, skipping global fields.
pub open spec fn row_key_names(pairs: Seq<(Seq<char>, JsonView)>) -> Seq<Seq<char>>
    decreases pairs.len(),
{
    if pairs.len() == 0 {
        Seq::empty()
    } else {
        row_key_names(pairs.drop_last()) + (if is_global_name(pairs.last().0) {
            Seq::empty()
        } else {
            seq![pairs.last().0]
        })
    }
}

/// The row names of one record: the field names under its `fieldData` object,
/// without the global fields; an empty list where `fieldData` is absent or
/// not an object.
pub open spec fn row_names_of(v: JsonView) -> Seq<Seq<char>> {
    match lookup_field(v, "fieldData"@) {
        Some(JsonView::Obj(pairs)) => row_key_names(pairs),
        _ => Seq::empty(),
    }
}

fn has_global_prefix(s: &str) -> (r: bool)
    ensures
        r == is_global_name(s@),
{
    if s.unicode_len() < 2 {
        return false;
    }
    s.get_char(0) == 'g' && s.get_char(1) == '_'
}

/// Returns the names of fields in the given record, excluding the ones
/// starting with `g_` (global fields): the member names of the record's
/// `fieldData` object, in order.
pub fn get_row_names_by_example(record: &JsonValue) -> (r: Vec<String>)
    ensures
        string_views(r@) == row_names_of(record@),
{
    match record.get_field("fieldData") {
        Some(field_data) => match field_data {
            JsonValue::Obj(pairs) => {
                let ghost vpairs = crate::json::member_views_of(pairs@);
                proof {
                    crate::json::lemma_member_views_of(pairs@);
                }
                let mut names: Vec<String> = Vec::new();
                let n = pairs.len();
                let mut i: usize = 0;
                while i < n
                    invariant
                        n == pairs@.len(),
                        i <= n,
                        vpairs.len() == pairs@.len(),
                        forall|j: int| 0 <= j < vpairs.len()
                            ==> vpairs[j] == (pairs@[j].0@, pairs@[j].1@),
                        string_views(names@) == row_key_names(vpairs.subrange(0, i as int)),
                    decreases n - i,
                {
                    if !has_global_prefix(pairs[i].0.as_str()) {
                        names.push(pairs[i].0.clone());
                    }
                    proof {
                        let pref = vpairs.subrange(0, i + 1 as int);
                        assert(pref.drop_last() == vpairs.subrange(0, i as int));
                        assert(pref.last() == (pairs@[i as int].0@, pairs@[i as int].1@));
                        assert(string_views(names@) =~= row_key_names(pref));
                    }
                    i = i + 1;
                }
                proof {
                    assert(vpairs.subrange(0, n as int) == vpairs);
                    assert(string_views(names@) =~= row_names_of(record@));
                }
                names
            },
            _ => Vec::new(),
        },
        None => Vec::new(),
    }
}

/// The row names that a record list yields: those of its first record, and
/// none where the list is empty.
pub fn row_names_from_records(records: &Vec<JsonValue>) -> (r: Vec<String>)
    ensures
        records@.len() == 0 ==> r@.len() == 0,
        records@.len() > 0 ==> string_views(r@) == row_names_of(records@[0]@),
{
    if records.len() == 0 {
        Vec::new()
    } else {
        get_row_names_by_example(&records[0])
    }
}

} // verus!
