use vstd::prelude::*;
use vstd::string::StringExecFns;

verus! {

/// What can go wrong between a request and the database.
///
/// A `String` payload is the text of the failure as the component that
/// reported it worded it.
#[derive(Debug)]
pub enum DbError {
    /// The connection string or the pool size cannot be used.
    ConfigError(String),
    /// The pool could not be built from valid settings.
    PoolInitError(String),
    /// No pool is registered where the request looks for one.
    LookupError,
    /// No connection could be checked out of the pool.
    PoolAcquireError(String),
    /// A statement was malformed or the database rejected it.
    QueryError(String),
    /// A statement ran but produced no row where one was expected.
    EmptyResultError,
}

impl DbError {
    /// The text of this error as a sequence of characters: what the failing
    /// component said, or a fixed sentence where the error carries no text.
    pub open spec fn spec_text(&self) -> Seq<char> {
        match self {
            DbError::ConfigError(t) => t@,
            DbError::PoolInitError(t) => t@,
            DbError::LookupError => "no connection pool is registered"@,
            DbError::PoolAcquireError(t) => t@,
            DbError::QueryError(t) => t@,
            DbError::EmptyResultError => "the statement returned no row"@,
        }
    }

    /// The text of this error.
    pub fn text(&self) -> (t: String)
        ensures
            t@ == self.spec_text(),
    {
        match self {
            DbError::ConfigError(t) => t.clone(),
            DbError::PoolInitError(t) => t.clone(),
            DbError::LookupError => String::from_str("no connection pool is registered"),
            DbError::PoolAcquireError(t) => t.clone(),
            DbError::QueryError(t) => t.clone(),
            DbError::EmptyResultError => String::from_str("the statement returned no row"),
        }
    }
}

} // verus!
