//! Database failures and how they are classified.

use vstd::prelude::*;
use vstd::string::*;

use crate::text::{has_prefix, starts_with, str_equal};

verus! {

/// What a failed database call reported, as far as its classification
/// needs it.
#[derive(Debug, Clone)]
pub enum SqlFailureKind {
    /// The query returned no row where one was expected.
    RowNotFound,
    /// No connection became free in time.
    PoolTimedOut,
    /// The connection failed.
    Io,
    /// The database refused the statement, with its SQLSTATE code if any,
    /// and whether it was a unique-constraint violation.
    Database { code: Option<String>, unique_violation: bool },
    /// Anything else.
    Other,
}

/// A failed database call: its kind and its message.
#[derive(Debug, Clone)]
pub struct SqlFailure {
    pub kind: SqlFailureKind,
    pub message: String,
}

/// A database error, as the services act on it.
#[derive(Debug)]
pub enum DbError {
    /// A failure that may pass: retrying may succeed.
    Transient(SqlFailure),
    /// A unique constraint was violated.
    Conflict(SqlFailure),
    /// No row was found.
    NotFound,
    /// Any other failure.
    Other(SqlFailure),
}

/// SQLSTATE codes of failures that may pass: connection exceptions (`08…`),
/// serialization failures (`40001`), deadlocks (`40P01`) and a server not
/// yet accepting connections (`57P03`).
pub open spec fn transient_code(code: Seq<char>) -> bool {
    has_prefix(code, "08"@) || code == "40001"@ || code == "40P01"@ || code == "57P03"@
}

/// How a failure is classified.
pub open spec fn classify_failure(e: SqlFailure) -> DbError {
    match e.kind {
        SqlFailureKind::RowNotFound => DbError::NotFound,
        SqlFailureKind::PoolTimedOut => DbError::Transient(e),
        SqlFailureKind::Io => DbError::Transient(e),
        SqlFailureKind::Database { code, unique_violation } => if unique_violation {
            DbError::Conflict(e)
        } else if code matches Some(c) && transient_code(c@) {
            DbError::Transient(e)
        } else {
            DbError::Other(e)
        },
        SqlFailureKind::Other => DbError::Other(e),
    }
}

/// Whether `err` reports a violated unique constraint.
pub fn is_unique_violation(err: &SqlFailure) -> (b: bool)
    ensures
        b == (err.kind matches SqlFailureKind::Database { unique_violation, .. } && unique_violation),
{
    match &err.kind {
        SqlFailureKind::Database { unique_violation, .. } => *unique_violation,
        _ => false,
    }
}

fn is_transient_code(code: &str) -> (b: bool)
    ensures
        b == transient_code(code@),
{
    proof {
        reveal_strlit("08");
        reveal_strlit("40001");
        reveal_strlit("40P01");
        reveal_strlit("57P03");
    }
    starts_with(code, "08") || str_equal(code, "40001") || str_equal(code, "40P01") || str_equal(code, "57P03")
}

impl From<SqlFailure> for DbError {
    fn from(e: SqlFailure) -> (r: Self) {
        let transient = match &e.kind {
            SqlFailureKind::Database { code: Some(c), .. } => is_transient_code(c.as_str()),
            _ => false,
        };
        match &e.kind {
            SqlFailureKind::RowNotFound => DbError::NotFound,
            SqlFailureKind::PoolTimedOut => DbError::Transient(e),
            SqlFailureKind::Io => DbError::Transient(e),
            SqlFailureKind::Database { .. } => {
                if is_unique_violation(&e) {
                    DbError::Conflict(e)
                } else if transient {
                    DbError::Transient(e)
                } else {
                    DbError::Other(e)
                }
            },
            SqlFailureKind::Other => DbError::Other(e),
        }
    }
}

impl vstd::std_specs::convert::FromSpecImpl<SqlFailure> for DbError {
    open spec fn obeys_from_spec() -> bool {
        true
    }

    open spec fn from_spec(e: SqlFailure) -> Self {
        classify_failure(e)
    }
}

impl DbError {
    /// Whether retrying may succeed.
    pub fn is_transient(&self) -> (b: bool)
        ensures
            b == (self is Transient),
    {
        match self {
            DbError::Transient(_) => true,
            _ => false,
        }
    }

    /// The error's message: `transient: …`, `unique violation: …`,
    /// `not found`, or the failure's own message.
    pub fn message(&self) -> (m: String)
        ensures
            match self {
                DbError::Transient(e) => m@ == "transient: "@ + e.message@,
                DbError::Conflict(e) => m@ == "unique violation: "@ + e.message@,
                DbError::NotFound => m@ == "not found"@,
                DbError::Other(e) => m@ == e.message@,
            },
    {
        match self {
            DbError::Transient(e) => {
                let mut m = String::from_str("transient: ");
                m.append(e.message.as_str());
                m
            },
            DbError::Conflict(e) => {
                let mut m = String::from_str("unique violation: ");
                m.append(e.message.as_str());
                m
            },
            DbError::NotFound => String::from_str("not found"),
            DbError::Other(e) => e.message.clone(),
        }
    }
}

} // verus!
