//! The error taxonomy of the search core. Integrity and configuration
//! failures are fatal to their operation; a malformed query is the one
//! recoverable, user-facing error and must stay distinguishable from an
//! empty result.

use vstd::prelude::*;
use crate::registry::FieldId;

verus! {

/// Why an operation of the search core failed.
#[derive(Clone, Copy, Debug, PartialEq, Eq, Structural)]
pub enum SearchError {
    /// The index directory is absent, unreadable or structurally invalid.
    Configuration,
    /// A retrieved document lacks the named required field: the index and
    /// the registry disagree, which no retry can mend.
    SchemaIntegrity(FieldId),
    /// The caller's query string cannot be parsed.
    QuerySyntax,
}

/// A short fixed description of each failure.
pub open spec fn spec_describe(e: SearchError) -> Seq<char> {
    match e {
        SearchError::Configuration => "index directory missing or invalid"@,
        SearchError::SchemaIntegrity(_) => "stored document lacks a required field"@,
        SearchError::QuerySyntax => "malformed query syntax"@,
    }
}

impl SearchError {
    /// Only a query-syntax failure may be reported back to the caller and
    /// retried with corrected input; the other failures are fatal.
    pub fn is_recoverable(&self) -> (r: bool)
        ensures
            r <==> *self == SearchError::QuerySyntax,
    {
        matches!(self, SearchError::QuerySyntax)
    }

    /// Returns the fixed description of this failure.
    pub fn describe(&self) -> (r: &'static str)
        ensures
            r@ == spec_describe(*self),
    {
        match self {
            SearchError::Configuration => "index directory missing or invalid",
            SearchError::SchemaIntegrity(_) => "stored document lacks a required field",
            SearchError::QuerySyntax => "malformed query syntax",
        }
    }
}

} // verus!
