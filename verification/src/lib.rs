//! Verified core of a catalog-and-chat backend.
//!
//! The library holds the logic of the service: mapping errors to HTTP
//! status codes and messages, looking catalog records up by identifier,
//! validating and merging profile updates, and planning the chunk
//! sequence that the chat relay streams to a client. File and network
//! I/O live outside the library and hand it plain values.

pub mod catalog;
pub mod errors;
pub mod models;
pub mod profile;
pub mod relay;
pub mod text;

use vstd::prelude::*;

verus! {

/// Health probe: the service always reports itself healthy.
pub fn health_check() -> (r: (u16, &'static str))
    ensures
        r.0 == 200,
        r.1@ == "OK"@,
{
    (200, "OK")
}

} // verus!
