use filemaker_lib::auth::{basic_auth_header, bearer_header};
use filemaker_lib::error::FmError;
use filemaker_lib::session::Session;
use filemaker_lib::urls::{
    database_url, databases_url, encode_parameter, find_url, layouts_url, record_url,
    records_range_url, records_url, sessions_url,
};

const BASE: &str = "https://fm.example.com/fmi/data/vLatest";

#[test]
fn encode_parameter_replaces_spaces() {
    assert_eq!(encode_parameter("plain"), "plain");
    assert_eq!(encode_parameter("my database"), "my%20database");
    assert_eq!(encode_parameter("  "), "%20%20");
    assert_eq!(encode_parameter(""), "");
}

#[test]
fn session_urls_carry_database_table_and_numbers() {
    assert_eq!(
        sessions_url(BASE, "my db"),
        format!("{}/databases/my%20db/sessions", BASE)
    );
    assert_eq!(databases_url(BASE), format!("{}/databases", BASE));
    assert_eq!(
        database_url(BASE, "my db"),
        format!("{}/databases/my%20db", BASE)
    );
    assert_eq!(
        layouts_url(BASE, "my db"),
        format!("{}/databases/my%20db/layouts", BASE)
    );
    assert_eq!(
        records_url(BASE, "db", "tbl"),
        format!("{}/databases/db/layouts/tbl/records", BASE)
    );
    assert_eq!(
        records_range_url(BASE, "db", "tbl", 1, 25),
        format!("{}/databases/db/layouts/tbl/records?_offset=1&_limit=25", BASE)
    );
    assert_eq!(
        record_url(BASE, "db", "tbl", 409),
        format!("{}/databases/db/layouts/tbl/records/409", BASE)
    );
    assert_eq!(
        find_url(BASE, "db", "tbl"),
        format!("{}/databases/db/layouts/tbl/_find", BASE)
    );
}

#[test]
fn basic_auth_header_encodes_the_credentials() {
    // base64("user:pass") with the standard alphabet and padding.
    assert_eq!(basic_auth_header("user", "pass"), "Basic dXNlcjpwYXNz");
    // base64("a:b") ends in padding: "YTpi" has none, "a:" alone would.
    assert_eq!(basic_auth_header("a", "b"), "Basic YTpi");
    assert_eq!(basic_auth_header("", ""), "Basic Og==");
}

#[test]
fn bearer_header_prefixes_the_token() {
    assert_eq!(bearer_header("tok123"), "Bearer tok123");
}

#[test]
fn a_new_session_has_no_token_and_encoded_names() {
    let session = Session::new("my db", "my table");
    assert_eq!(session.database, "my%20db");
    assert_eq!(session.table, "my%20table");
    assert_eq!(session.bearer_header().unwrap_err(), FmError::NoToken);
}

#[test]
fn a_session_with_a_token_builds_bearer_headers_and_urls() {
    let mut session = Session::new("db", "tbl");
    session.set_token("abc".to_string());
    assert_eq!(session.bearer_header().unwrap(), "Bearer abc");
    assert_eq!(
        session.records_url(BASE),
        format!("{}/databases/db/layouts/tbl/records", BASE)
    );
    assert_eq!(
        session.records_range_url(BASE, 1, 100),
        format!("{}/databases/db/layouts/tbl/records?_offset=1&_limit=100", BASE)
    );
    assert_eq!(
        session.record_url(BASE, 5),
        format!("{}/databases/db/layouts/tbl/records/5", BASE)
    );
    assert_eq!(
        session.find_url(BASE),
        format!("{}/databases/db/layouts/tbl/_find", BASE)
    );
}

#[test]
fn error_messages_match_their_variants() {
    assert_eq!(FmError::NoToken.message(), "No session token found");
    assert_eq!(
        FmError::TokenNotFound.message(),
        "Failed to get token from FileMaker API"
    );
    assert_eq!(FmError::RecordsNotFound.message(), "Failed to retrieve records");
    assert_eq!(
        FmError::CountNotFound.message(),
        "Failed to retrieve total record count"
    );
    assert_eq!(
        FmError::SearchResultsNotFound.message(),
        "Failed to retrieve search results"
    );
    assert_eq!(FmError::DatabasesNotFound.message(), "Failed to retrieve databases");
    assert_eq!(FmError::LayoutsNotFound.message(), "Failed to retrieve layouts");
    assert_eq!(FmError::RecordNotFound.message(), "No record found");
    assert_eq!(FmError::RecordDataNotFound.message(), "Failed to get record");
    assert_eq!(FmError::DeleteFailed.message(), "Failed to delete record");
    assert_eq!(FmError::RecordIdMissing.message(), "Record ID not found in record");
    assert_eq!(
        FmError::RecordIdInvalid.message(),
        "Failed to parse record ID as u64"
    );
    assert_eq!(
        FmError::AdvancedSearchResultsNotFound.message(),
        "Failed to retrieve advanced search results"
    );
}
