use vstd::prelude::*;

verus! {

/// Every way a client call can fail inside the library's own logic: a missing
/// session token, or an upstream response that lacks the field the call needs.
/// Transport failures never reach the library; they stay with the caller that
/// performs the I/O.
#[derive(Clone, Copy, Debug, PartialEq, Eq, Structural)]
pub enum FmError {
    /// No session token is held, so no authenticated request can be built.
    NoToken,
    /// The session response carried no `response.token` string.
    TokenNotFound,
    /// The response carried no `response.data` field.
    RecordsNotFound,
    /// The response carried no `response.dataInfo.totalRecordCount` number.
    CountNotFound,
    /// The find response carried no `response.data` field.
    SearchResultsNotFound,
    /// The response carried no `response.databases` array.
    DatabasesNotFound,
    /// The response carried no `response.layouts` array.
    LayoutsNotFound,
    /// The response carried `response.data`, but no record stood in it.
    RecordNotFound,
    /// The response carried no `response.data` field for a single record.
    RecordDataNotFound,
    /// The delete response was not a JSON object.
    DeleteFailed,
    /// A record carried no `recordId` string.
    RecordIdMissing,
    /// A record's `recordId` string was not an unsigned decimal number.
    RecordIdInvalid,
    /// The find response for an advanced search carried no `response.data` array.
    AdvancedSearchResultsNotFound,
}

impl FmError {
    /// A human-readable description of the failure.
    pub fn message(&self) -> (m: &'static str)
        ensures
            m@ == self.spec_message(),
    {
        match self {
            FmError::NoToken => "No session token found",
            FmError::TokenNotFound => "Failed to get token from FileMaker API",
            FmError::RecordsNotFound => "Failed to retrieve records",
            FmError::CountNotFound => "Failed to retrieve total record count",
            FmError::SearchResultsNotFound => "Failed to retrieve search results",
            FmError::DatabasesNotFound => "Failed to retrieve databases",
            FmError::LayoutsNotFound => "Failed to retrieve layouts",
            FmError::RecordNotFound => "No record found",
            FmError::RecordDataNotFound => "Failed to get record",
            FmError::DeleteFailed => "Failed to delete record",
            FmError::RecordIdMissing => "Record ID not found in record",
            FmError::RecordIdInvalid => "Failed to parse record ID as u64",
            FmError::AdvancedSearchResultsNotFound => "Failed to retrieve advanced search results",
        }
    }

    /// What `message` returns, as a sequence of characters.
    pub open spec fn spec_message(&self) -> Seq<char> {
        match self {
            FmError::NoToken => "No session token found"@,
            FmError::TokenNotFound => "Failed to get token from FileMaker API"@,
            FmError::RecordsNotFound => "Failed to retrieve records"@,
            FmError::CountNotFound => "Failed to retrieve total record count"@,
            FmError::SearchResultsNotFound => "Failed to retrieve search results"@,
            FmError::DatabasesNotFound => "Failed to retrieve databases"@,
            FmError::LayoutsNotFound => "Failed to retrieve layouts"@,
            FmError::RecordNotFound => "No record found"@,
            FmError::RecordDataNotFound => "Failed to get record"@,
            FmError::DeleteFailed => "Failed to delete record"@,
            FmError::RecordIdMissing => "Record ID not found in record"@,
            FmError::RecordIdInvalid => "Failed to parse record ID as u64"@,
            FmError::AdvancedSearchResultsNotFound => "Failed to retrieve advanced search results"@,
        }
    }
}

} // verus!
