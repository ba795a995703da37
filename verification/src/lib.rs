//! A verified core for a FileMaker Data API client.
//!
//! The library holds everything about the client that is plain computation:
//! endpoint URL construction, Basic and Bearer authorization headers, request
//! body construction, JSON serialization over the library's own JSON value
//! type, and the unwrapping of the `{ "response": ..., "messages": ... }`
//! envelope that the upstream API returns. The HTTP transport itself lives
//! outside the library and hands plain values in and out.

pub mod auth;
pub mod body;
pub mod envelope;
pub mod error;
pub mod json;
pub mod ser;
pub mod session;
pub mod text;
pub mod urls;
