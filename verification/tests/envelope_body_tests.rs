use filemaker_lib::body::{build_advanced_find_body, build_field_data_body, build_find_body};
use filemaker_lib::envelope::{
    added_record_id, advanced_search_results_from_response, database_names_from_response,
    delete_result, get_row_names_by_example, layout_names_from_response, record_delete_id,
    records_from_response, row_names_from_records, search_results_from_response,
    single_record_from_response, token_from_response, total_count_from_response,
};
use filemaker_lib::error::FmError;
use filemaker_lib::json::JsonValue;
use filemaker_lib::ser::to_json_string;

fn s(text: &str) -> String {
    text.to_string()
}

fn obj(pairs: Vec<(&str, JsonValue)>) -> JsonValue {
    JsonValue::Obj(pairs.into_iter().map(|(k, v)| (s(k), v)).collect())
}

fn envelope(key: &str, inner: JsonValue) -> JsonValue {
    obj(vec![
        ("response", obj(vec![(key, inner)])),
        ("messages", JsonValue::Arr(vec![])),
    ])
}

#[test]
fn token_is_read_from_the_response() {
    let reply = envelope("token", JsonValue::Str(s("abc123")));
    assert_eq!(token_from_response(&reply).unwrap(), "abc123");
}

#[test]
fn a_reply_without_a_token_string_yields_the_token_error() {
    let missing = envelope("other", JsonValue::Str(s("abc")));
    assert_eq!(token_from_response(&missing).unwrap_err(), FmError::TokenNotFound);
    let not_a_string = envelope("token", JsonValue::Num(s("5")));
    assert_eq!(
        token_from_response(&not_a_string).unwrap_err(),
        FmError::TokenNotFound
    );
    assert_eq!(
        token_from_response(&JsonValue::Null).unwrap_err(),
        FmError::TokenNotFound
    );
}

#[test]
fn records_come_out_of_the_data_array() {
    let reply = envelope(
        "data",
        JsonValue::Arr(vec![
            obj(vec![("recordId", JsonValue::Str(s("1")))]),
            obj(vec![("recordId", JsonValue::Str(s("2")))]),
        ]),
    );
    let records = records_from_response(reply).unwrap();
    assert_eq!(records.len(), 2);
    assert_eq!(to_json_string(&records[0]), "{\"recordId\":\"1\"}");
}

#[test]
fn a_data_member_that_is_no_array_yields_no_records() {
    let reply = envelope("data", JsonValue::Str(s("odd")));
    let records = records_from_response(reply).unwrap();
    assert_eq!(records.len(), 0);
}

#[test]
fn a_reply_without_data_is_a_record_retrieval_failure() {
    let reply = envelope("other", JsonValue::Arr(vec![]));
    assert_eq!(
        records_from_response(reply).unwrap_err(),
        FmError::RecordsNotFound
    );
    let search_reply = envelope("other", JsonValue::Arr(vec![]));
    assert_eq!(
        search_results_from_response(search_reply).unwrap_err(),
        FmError::SearchResultsNotFound
    );
}

#[test]
fn an_advanced_search_insists_on_an_array() {
    let good = envelope("data", JsonValue::Arr(vec![JsonValue::Null]));
    assert_eq!(advanced_search_results_from_response(good).unwrap().len(), 1);
    let bad = envelope("data", JsonValue::Str(s("odd")));
    assert_eq!(
        advanced_search_results_from_response(bad).unwrap_err(),
        FmError::AdvancedSearchResultsNotFound
    );
}

#[test]
fn the_total_count_is_read_from_data_info() {
    let reply = envelope(
        "dataInfo",
        obj(vec![("totalRecordCount", JsonValue::Num(s("409")))]),
    );
    assert_eq!(total_count_from_response(&reply).unwrap(), 409);
}

#[test]
fn a_count_that_is_no_unsigned_integer_is_an_error() {
    for bad in ["4.5", "-1", "1e3", "18446744073709551616"] {
        let reply = envelope(
            "dataInfo",
            obj(vec![("totalRecordCount", JsonValue::Num(s(bad)))]),
        );
        assert_eq!(
            total_count_from_response(&reply).unwrap_err(),
            FmError::CountNotFound
        );
    }
    let missing = envelope("dataInfo", obj(vec![]));
    assert_eq!(
        total_count_from_response(&missing).unwrap_err(),
        FmError::CountNotFound
    );
}

#[test]
fn the_id_of_an_added_record_is_parsed_from_its_string() {
    let reply = envelope("recordId", JsonValue::Str(s("123")));
    assert_eq!(added_record_id(&reply), Some(123));
    let unparsable = envelope("recordId", JsonValue::Str(s("abc")));
    assert_eq!(added_record_id(&unparsable), None);
    let not_a_string = envelope("recordId", JsonValue::Num(s("123")));
    assert_eq!(added_record_id(&not_a_string), None);
}

#[test]
fn a_single_record_is_the_first_data_element() {
    let reply = envelope(
        "data",
        JsonValue::Arr(vec![
            obj(vec![("recordId", JsonValue::Str(s("7")))]),
            obj(vec![("recordId", JsonValue::Str(s("8")))]),
        ]),
    );
    let record = single_record_from_response(reply).unwrap();
    assert_eq!(to_json_string(&record), "{\"recordId\":\"7\"}");
    let empty = envelope("data", JsonValue::Arr(vec![]));
    assert_eq!(
        single_record_from_response(empty).unwrap_err(),
        FmError::RecordNotFound
    );
    let missing = envelope("other", JsonValue::Null);
    assert_eq!(
        single_record_from_response(missing).unwrap_err(),
        FmError::RecordDataNotFound
    );
}

#[test]
fn any_object_reply_counts_as_a_successful_delete() {
    let reply = obj(vec![("messages", JsonValue::Arr(vec![]))]);
    let ok = delete_result(&reply).unwrap();
    assert_eq!(to_json_string(&ok), "{\"success\":true}");
    assert_eq!(
        delete_result(&JsonValue::Str(s("no"))).unwrap_err(),
        FmError::DeleteFailed
    );
}

#[test]
fn the_delete_id_of_a_record_comes_from_its_record_id_string() {
    let record = obj(vec![("recordId", JsonValue::Str(s("55")))]);
    assert_eq!(record_delete_id(&record).unwrap(), 55);
    let invalid = obj(vec![("recordId", JsonValue::Str(s("5a")))]);
    assert_eq!(record_delete_id(&invalid).unwrap_err(), FmError::RecordIdInvalid);
    let missing = obj(vec![("other", JsonValue::Str(s("55")))]);
    assert_eq!(record_delete_id(&missing).unwrap_err(), FmError::RecordIdMissing);
    let not_a_string = obj(vec![("recordId", JsonValue::Num(s("55")))]);
    assert_eq!(
        record_delete_id(&not_a_string).unwrap_err(),
        FmError::RecordIdMissing
    );
}

#[test]
fn listing_names_are_collected_in_order() {
    let reply = envelope(
        "databases",
        JsonValue::Arr(vec![
            obj(vec![("name", JsonValue::Str(s("crm")))]),
            obj(vec![("other", JsonValue::Str(s("skipped")))]),
            obj(vec![("name", JsonValue::Str(s("inventory")))]),
        ]),
    );
    assert_eq!(
        database_names_from_response(&reply).unwrap(),
        vec![s("crm"), s("inventory")]
    );
    let missing = envelope("other", JsonValue::Arr(vec![]));
    assert_eq!(
        database_names_from_response(&missing).unwrap_err(),
        FmError::DatabasesNotFound
    );
    let layouts = envelope(
        "layouts",
        JsonValue::Arr(vec![obj(vec![("name", JsonValue::Str(s("main")))])]),
    );
    assert_eq!(layout_names_from_response(&layouts).unwrap(), vec![s("main")]);
    let not_an_array = envelope("layouts", JsonValue::Str(s("odd")));
    assert_eq!(
        layout_names_from_response(&not_an_array).unwrap_err(),
        FmError::LayoutsNotFound
    );
}

#[test]
fn row_names_skip_global_fields() {
    let record = obj(vec![(
        "fieldData",
        obj(vec![
            ("name", JsonValue::Str(s("a"))),
            ("g_counter", JsonValue::Num(s("1"))),
            ("city", JsonValue::Str(s("b"))),
            ("g_", JsonValue::Null),
        ]),
    )]);
    assert_eq!(
        get_row_names_by_example(&record),
        vec![s("name"), s("city")]
    );
    assert_eq!(get_row_names_by_example(&JsonValue::Null), Vec::<String>::new());
    assert_eq!(
        row_names_from_records(&vec![record]),
        vec![s("name"), s("city")]
    );
    assert_eq!(row_names_from_records(&vec![]), Vec::<String>::new());
}

#[test]
fn a_find_body_carries_query_and_sort() {
    let query = vec![vec![(s("fieldName"), s("value"))]];
    let sort = vec![s("fieldName")];
    let body = build_find_body(&query, &sort, true);
    assert_eq!(
        to_json_string(&body),
        "{\"query\":[{\"fieldName\":\"value\"}],\
         \"sort\":[{\"fieldName\":\"fieldName\",\"sortOrder\":\"ascend\"}]}"
    );
    let descending = build_find_body(&query, &sort, false);
    assert_eq!(
        to_json_string(&descending),
        "{\"query\":[{\"fieldName\":\"value\"}],\
         \"sort\":[{\"fieldName\":\"fieldName\",\"sortOrder\":\"descend\"}]}"
    );
}

#[test]
fn an_empty_find_body_still_carries_both_members() {
    let body = build_find_body(&vec![], &vec![], true);
    assert_eq!(to_json_string(&body), "{\"query\":[],\"sort\":[]}");
}

#[test]
fn an_advanced_find_body_splits_fields_and_may_omit_sort() {
    let fields = vec![
        (s("a"), JsonValue::Str(s("1"))),
        (s("b"), JsonValue::Num(s("2"))),
    ];
    let body = build_advanced_find_body(fields, &vec![s("a")], false);
    assert_eq!(
        to_json_string(&body),
        "{\"query\":[{\"a\":\"1\"},{\"b\":2}],\
         \"sort\":[{\"fieldName\":\"a\",\"sortOrder\":\"descend\"}]}"
    );
    let unsorted = build_advanced_find_body(
        vec![(s("a"), JsonValue::Str(s("1")))],
        &vec![],
        true,
    );
    assert_eq!(to_json_string(&unsorted), "{\"query\":[{\"a\":\"1\"}]}");
}

#[test]
fn a_field_data_body_wraps_the_fields() {
    let body = build_field_data_body(vec![
        (s("name"), JsonValue::Str(s("x"))),
        (s("count"), JsonValue::Num(s("3"))),
    ]);
    assert_eq!(
        to_json_string(&body),
        "{\"fieldData\":{\"name\":\"x\",\"count\":3}}"
    );
}
