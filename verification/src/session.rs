//! The client handle: the database and table a session is scoped to, and the
//! bearer token it holds once authentication has granted one.
//!
//! The handle stores both names space-encoded, as the URLs need them, and
//! answers the endpoint URL and the `Authorization` header of every
//! layout-scoped call.

use vstd::prelude::*;
use crate::auth::bearer_header;
use crate::error::FmError;
use crate::text::dec_numeral;
use crate::urls::{encode_parameter, encode_spaces};

verus! {

/// A session-scoped handle: database name, table name (both space-encoded),
/// and the bearer token, absent until authentication has granted one.
pub struct Session {
    pub database: String,
    pub table: String,
    pub token: Option<String>,
}

impl Session {
    /// A handle scoped to `database` and `table`: both names space-encoded,
    /// no token yet.
    pub fn new(database: &str, table: &str) -> (s: Session)
        ensures
            s.database@ == encode_spaces(database@),
            s.table@ == encode_spaces(table@),
            s.token is None,
    {
        Session {
            database: encode_parameter(database),
            table: encode_parameter(table),
            token: None,
        }
    }

    /// Stores the token that the sessions endpoint granted; the names stay as
    /// they are.
    pub fn set_token(&mut self, token: String)
        ensures
            final(self).database == old(self).database,
            final(self).table == old(self).table,
            final(self).token == Some(token),
    {
        self.token = Some(token);
    }

    /// The `Authorization` header of an authenticated call: `Bearer ` and the
    /// stored token, or the no-token error where none is held.
    pub fn bearer_header(&self) -> (r: Result<String, FmError>)
        ensures
            match r {
                Ok(h) => self.token is Some && h@ == "Bearer "@ + self.token->0@,
                Err(e) => self.token is None && e == FmError::NoToken,
            },
    {
        match &self.token {
            Some(t) => Ok(bearer_header(t.as_str())),
            None => Err(FmError::NoToken),
        }
    }

    /// The URL of this session's `records` endpoint.
    pub fn records_url(&self, base: &str) -> (r: String)
        ensures
            r@ == base@ + "/databases/"@ + self.database@ + "/layouts/"@ + self.table@
                + "/records"@,
    {
        crate::urls::records_url(base, self.database.as_str(), self.table.as_str())
    }

    /// The URL of this session's `records` endpoint with an offset and a
    /// limit.
    pub fn records_range_url(&self, base: &str, start: u64, limit: u64) -> (r: String)
        ensures
            r@ == base@ + "/databases/"@ + self.database@ + "/layouts/"@ + self.table@
                + "/records?_offset="@ + dec_numeral(start as nat) + "&_limit="@ + dec_numeral(
                limit as nat,
            ),
    {
        crate::urls::records_range_url(base, self.database.as_str(), self.table.as_str(), start, limit)
    }

    /// The URL of one of this session's records by its id.
    pub fn record_url(&self, base: &str, id: u64) -> (r: String)
        ensures
            r@ == base@ + "/databases/"@ + self.database@ + "/layouts/"@ + self.table@
                + "/records/"@ + dec_numeral(id as nat),
    {
        crate::urls::record_url(base, self.database.as_str(), self.table.as_str(), id)
    }

    /// The URL of this session's `_find` endpoint.
    pub fn find_url(&self, base: &str) -> (r: String)
        ensures
            r@ == base@ + "/databases/"@ + self.database@ + "/layouts/"@ + self.table@ + "/_find"@,
    {
        crate::urls::find_url(base, self.database.as_str(), self.table.as_str())
    }
}

} // verus!
