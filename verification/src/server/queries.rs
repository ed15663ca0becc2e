//! Parameters that the routes take from the query string.

use vstd::prelude::*;

verus! {

/// The optional `query` parameter of the organization listing.
#[derive(Debug, Clone)]
pub struct FilterQuery {
    /// Keywords separated by white space; absent when nothing is filtered.
    pub query: Option<String>,
}

/// The `q` parameter of the repository search.
#[derive(Debug, Clone)]
pub struct SearchQuery {
    /// The search expression, handed to the data source as it is.
    pub q: String,
}

} // verus!
