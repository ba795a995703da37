//! Construction of the Data API endpoint URLs.
//!
//! Every function takes the server's base URL as given and states the exact
//! text of the URL it returns. Database and table names are space-encoded
//! where the upstream path expects it; the session-scoped functions take
//! names that are already encoded, as the client handle stores them.

use vstd::prelude::*;
use crate::text::{push_char, u64_to_string};
use crate::text::dec_numeral;

verus! {

/// The space-encoding of a sequence of characters: each space becomes the
/// three characters `%20`, every other character stays as it is.
pub open spec fn encode_spaces(s: Seq<char>) -> Seq<char>
    decreases s.len(),
{
    if s.len() == 0 {
        Seq::empty()
    } else {
        encode_spaces(s.drop_last()) + encode_one_char(s.last())
    }
}

/// How one character stands inside an encoded URL parameter.
pub open spec fn encode_one_char(c: char) -> Seq<char> {
    if c == ' ' {
        seq!['%', '2', '0']
    } else {
        seq![c]
    }
}

/// Replaces every space in `parameter` by `%20`, so that database and table
/// names can stand inside a URL path.
pub fn encode_parameter(parameter: &str) -> (encoded: String)
    ensures
        encoded@ == encode_spaces(parameter@),
{
    let n: usize = parameter.unicode_len();
    let mut out = String::new();
    let mut i: usize = 0;
    while i < n
        invariant
            n == parameter@.len(),
            i <= n,
            out@ == encode_spaces(parameter@.subrange(0, i as int)),
        decreases n - i,
    {
        let c = parameter.get_char(i);
        if c == ' ' {
            out.append("%20");
        } else {
            push_char(&mut out, c);
        }
        proof {
            reveal_strlit("%20");
            assert(parameter@.subrange(0, i + 1 as int).drop_last() == parameter@.subrange(
                0,
                i as int,
            ));
        }
        i = i + 1;
    }
    proof {
        assert(parameter@.subrange(0, n as int) == parameter@);
    }
    out
}

/// No space survives the encoding: the result of `encode_spaces` never
/// contains a space character.
pub proof fn lemma_encode_spaces_no_space(s: Seq<char>)
    ensures
        forall|i: int| 0 <= i < encode_spaces(s).len() ==> encode_spaces(s)[i] != ' ',
    decreases s.len(),
{
    if s.len() > 0 {
        lemma_encode_spaces_no_space(s.drop_last());
        let head = encode_spaces(s.drop_last());
        let tail = encode_one_char(s.last());
        assert forall|i: int| 0 <= i < encode_spaces(s).len() implies encode_spaces(s)[i] != ' ' by {
            if i < head.len() {
                assert(encode_spaces(s)[i] == head[i]);
            } else {
                assert(encode_spaces(s)[i] == tail[i - head.len()]);
            }
        }
    }
}

/// The URL of the `sessions` endpoint for `database`; the database name is
/// space-encoded into the path.
pub fn sessions_url(base: &str, database: &str) -> (r: String)
    ensures
        r@ == base@ + "/databases/"@ + encode_spaces(database@) + "/sessions"@,
{
    let mut out = String::from_str(base);
    out.append("/databases/");
    let encoded = encode_parameter(database);
    out.append(encoded.as_str());
    out.append("/sessions");
    out
}

/// The URL that lists the databases.
pub fn databases_url(base: &str) -> (r: String)
    ensures
        r@ == base@ + "/databases"@,
{
    let mut out = String::from_str(base);
    out.append("/databases");
    out
}

/// The URL of `database` itself; the database name is space-encoded into the
/// path.
pub fn database_url(base: &str, database: &str) -> (r: String)
    ensures
        r@ == base@ + "/databases/"@ + encode_spaces(database@),
{
    let mut out = String::from_str(base);
    out.append("/databases/");
    let encoded = encode_parameter(database);
    out.append(encoded.as_str());
    out
}

/// The URL that lists the layouts of `database`; the database name is
/// space-encoded into the path.
pub fn layouts_url(base: &str, database: &str) -> (r: String)
    ensures
        r@ == base@ + "/databases/"@ + encode_spaces(database@) + "/layouts"@,
{
    let mut out = String::from_str(base);
    out.append("/databases/");
    let encoded = encode_parameter(database);
    out.append(encoded.as_str());
    out.append("/layouts");
    out
}

/// The common prefix of the layout-scoped endpoints:
/// `{base}/databases/{database}/layouts/{table}`, over names that are already
/// space-encoded.
fn layout_prefix(base: &str, database: &str, table: &str) -> (r: String)
    ensures
        r@ == base@ + "/databases/"@ + database@ + "/layouts/"@ + table@,
{
    let mut out = String::from_str(base);
    out.append("/databases/");
    out.append(database);
    out.append("/layouts/");
    out.append(table);
    out
}

/// The URL of the `records` endpoint, over names that are already
/// space-encoded.
pub fn records_url(base: &str, database: &str, table: &str) -> (r: String)
    ensures
        r@ == base@ + "/databases/"@ + database@ + "/layouts/"@ + table@ + "/records"@,
{
    let mut out = layout_prefix(base, database, table);
    out.append("/records");
    out
}

/// The URL of the `records` endpoint with an offset and a limit, over names
/// that are already space-encoded.
pub fn records_range_url(base: &str, database: &str, table: &str, start: u64, limit: u64) -> (r:
    String)
    ensures
        r@ == base@ + "/databases/"@ + database@ + "/layouts/"@ + table@ + "/records?_offset="@
            + dec_numeral(start as nat) + "&_limit="@ + dec_numeral(limit as nat),
{
    let mut out = layout_prefix(base, database, table);
    out.append("/records?_offset=");
    let start_text = u64_to_string(start);
    out.append(start_text.as_str());
    out.append("&_limit=");
    let limit_text = u64_to_string(limit);
    out.append(limit_text.as_str());
    out
}

/// The URL of one record by its id, over names that are already
/// space-encoded.
pub fn record_url(base: &str, database: &str, table: &str, id: u64) -> (r: String)
    ensures
        r@ == base@ + "/databases/"@ + database@ + "/layouts/"@ + table@ + "/records/"@
            + dec_numeral(id as nat),
{
    let mut out = layout_prefix(base, database, table);
    out.append("/records/");
    let id_text = u64_to_string(id);
    out.append(id_text.as_str());
    out
}

/// The URL of the `_find` endpoint, over names that are already
/// space-encoded.
pub fn find_url(base: &str, database: &str, table: &str) -> (r: String)
    ensures
        r@ == base@ + "/databases/"@ + database@ + "/layouts/"@ + table@ + "/_find"@,
{
    let mut out = layout_prefix(base, database, table);
    out.append("/_find");
    out
}

} // verus!
