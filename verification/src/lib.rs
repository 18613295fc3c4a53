//! A two-tier document search service.
//!
//! Documents accepted by the service are appended to a durable log and added
//! to an in-memory mutable tier, where they become searchable at once. When
//! the mutable tier reaches a configured threshold, the logged batch migrates
//! into a disk-backed immutable tier and the log and mutable tier are cleared.
//! Queries fan out to both tiers and the scored hits are merged.
use vstd::prelude::*;

pub mod engine;
pub mod log;
pub mod merge;
pub mod model;
pub mod service;

verus! {

/// The failures the service reports to its callers.
#[derive(Debug, Clone, Copy, PartialEq, Eq, Structural)]
pub enum Error {
    /// The document does not satisfy the index schema.
    MalformedDocument,
    /// The query text is not valid query syntax.
    QueryParseError,
    /// The log or the index segments could not be read or written.
    StorageIo,
}

/// A search request: the query text, a result offset and a result cap.
pub struct SearchQuery {
    pub query: String,
    pub offset: usize,
    pub limit: usize,
}

/// The result cap used when a request does not name one.
pub fn default_limit() -> (r: usize)
    ensures
        r == 20,
{
    20
}

/// The fields a query text is parsed against.
pub fn default_search_field_names() -> (r: Vec<String>)
    ensures
        r@.len() == 2,
        r@[0]@ == "title"@,
        r@[1]@ == "overview"@,
{
    let mut names: Vec<String> = Vec::new();
    names.push(String::from_str("title"));
    names.push(String::from_str("overview"));
    names
}

} // verus!
