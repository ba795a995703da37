//! Authorization header values: HTTP Basic credentials for the session
//! handshake, and the Bearer token for every authenticated call.

use vstd::prelude::*;
use vstd::utf8::encode_utf8;

verus! {

/// The base64 text (RFC 4648 standard alphabet, padded) of a sequence of
/// bytes, as the outside encoder produces it.
pub uninterp spec fn base64_of(bytes: Seq<u8>) -> Seq<char>;

/// Relies on base64's `STANDARD` engine `encode`: the standard-alphabet,
/// padded base64 text of the input, four characters for every started group
/// of three bytes. The engine panics only when that length overflows `usize`,
/// which the bound below rules out.
#[verifier::external_body]
fn base64_encode(bytes: &[u8]) -> (r: String)
    requires
        bytes@.len() * 4 + 4 <= usize::MAX,
    ensures
        r@ == base64_of(bytes@),
        r@.len() == 4 * ((bytes@.len() + 2) / 3),
{
    base64::Engine::encode(&base64::engine::general_purpose::STANDARD, bytes)
}

/// A UTF-8 encoding never takes more than four bytes per character.
proof fn lemma_encode_utf8_len(chars: Seq<char>)
    ensures
        encode_utf8(chars).len() <= 4 * chars.len(),
    decreases chars.len(),
{
    if chars.len() > 0 {
        lemma_encode_utf8_len(chars.drop_first());
    }
}

/// The value of the `Authorization` header for the session handshake:
/// `Basic ` followed by the base64 of `username:password` in UTF-8. The
/// length bound keeps the base64 output length inside `usize`.
pub fn basic_auth_header(username: &str, password: &str) -> (r: String)
    requires
        (username@.len() + password@.len()) * 16 + 40 <= usize::MAX,
    ensures
        r@ == "Basic "@ + base64_of(encode_utf8(username@ + ":"@ + password@)),
{
    let mut cred = String::from_str(username);
    cred.append(":");
    cred.append(password);
    proof {
        reveal_strlit(":");
        assert(cred@ == username@ + ":"@ + password@);
        lemma_encode_utf8_len(cred@);
    }
    let bytes = cred.as_str().as_bytes();
    let b64 = base64_encode(bytes);
    let mut out = String::from_str("Basic ");
    out.append(b64.as_str());
    out
}

/// The value of the `Authorization` header for an authenticated call:
/// `Bearer ` followed by the session token.
pub fn bearer_header(token: &str) -> (r: String)
    ensures
        r@ == "Bearer "@ + token@,
{
    let mut out = String::from_str("Bearer ");
    out.append(token);
    out
}

} // verus!
