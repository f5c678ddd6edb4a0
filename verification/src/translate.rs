use vstd::prelude::*;
use vstd::string::StringExecFns;

use crate::error::{AppError, AppErrorView};

verus! {

/// Mathematical shape of a persistence failure.
pub ghost enum DbFailureView {
    Database { constraint: Option<Seq<char>>, unique_violation: bool },
    Other,
}

/// What this core reads of a persistence-layer failure: whether the database
/// itself rejected the statement, the named schema constraint it violated
/// (if it names one), and whether the rejection is a unique violation.
#[derive(Debug)]
pub enum DbFailure {
    /// A failure the database reported.
    Database { constraint: Option<String>, unique_violation: bool },
    /// Any other persistence failure (connection, timeout, decoding, ...).
    Other,
}

impl View for DbFailure {
    type V = DbFailureView;

    open spec fn view(&self) -> DbFailureView {
        match self {
            DbFailure::Database { constraint, unique_violation } => DbFailureView::Database {
                constraint: match constraint {
                    Some(c) => Some(c@),
                    None => None,
                },
                unique_violation: *unique_violation,
            },
            DbFailure::Other => DbFailureView::Other,
        }
    }
}

impl Clone for DbFailure {
    fn clone(&self) -> (r: Self)
        ensures
            r@ == self@,
    {
        match self {
            DbFailure::Database { constraint, unique_violation } => DbFailure::Database {
                constraint: match constraint {
                    Some(c) => Some(c.clone()),
                    None => None,
                },
                unique_violation: *unique_violation,
            },
            DbFailure::Other => DbFailure::Other,
        }
    }
}

/// One entry for the trace log, produced at the single point where an
/// underlying failure is translated; the caller emits it. Rendering an error
/// later never produces another.
#[derive(Debug)]
pub struct TraceRecord {
    /// The caller-supplied context, or the constraint name that was matched
    /// against.
    pub context: String,
    /// The underlying failure, kept verbatim for the log and nothing else.
    pub cause: DbFailure,
}

/// Whether a failure violated exactly the named constraint, case-sensitively.
pub open spec fn constraint_matches(f: DbFailureView, name: Seq<char>) -> bool {
    f matches DbFailureView::Database { constraint: Some(c), .. } && c == name
}

/// Whether a failure is a unique violation, whatever constraint fired.
pub open spec fn is_unique_violation(f: DbFailureView) -> bool {
    f matches DbFailureView::Database { unique_violation: true, .. }
}

/// What a failure translates to when held against one named constraint.
pub open spec fn spec_on_constraint(f: DbFailureView, name: Seq<char>, mapped: AppErrorView) -> AppErrorView {
    if constraint_matches(f, name) {
        mapped
    } else {
        AppErrorView::Internal
    }
}

/// What a failure translates to when any unique violation is meant.
pub open spec fn spec_unique_violation(f: DbFailureView, provided: AppErrorView) -> AppErrorView {
    if is_unique_violation(f) {
        provided
    } else {
        AppErrorView::Internal
    }
}

/// Keeps the result as it is, producing a trace record for any failure so
/// that the caller can emit it.
pub fn trace_db<T>(r: Result<T, DbFailure>, context: &str) -> (res: (
    Result<T, DbFailure>,
    Option<TraceRecord>,
))
    ensures
        res.0 == r,
        r is Ok ==> res.1 is None,
        r matches Err(f) ==> (res.1 matches Some(t) && t.context@ == context@ && t.cause@ == f@),
{
    match r {
        Ok(v) => (Ok(v), None),
        Err(f) => {
            let record = TraceRecord { context: context.to_owned(), cause: f.clone() };
            (Err(f), Some(record))
        },
    }
}

/// Maps a failure on exactly the named constraint (case-sensitive, never a
/// partial match) to the supplied domain error; every other failure
/// collapses to the opaque `Internal`, and the underlying failure is traced
/// exactly once, here; rendering adds no second log.
pub fn on_constraint<T>(r: Result<T, DbFailure>, name: &str, mapped: AppError) -> (res: (
    Result<T, AppError>,
    Option<TraceRecord>,
))
    ensures
        r matches Ok(v) ==> res.0 == Ok::<T, AppError>(v) && res.1 is None,
        r matches Err(f) ==> {
            &&& res.0 matches Err(e) && e@ == spec_on_constraint(f@, name@, mapped@)
            &&& constraint_matches(f@, name@) ==> res.1 is None
            &&& !constraint_matches(f@, name@) ==> (res.1 matches Some(t) && t.context@ == name@
                && t.cause@ == f@)
        },
{
    match r {
        Ok(v) => (Ok(v), None),
        Err(f) => {
            let target = name.to_owned();
            let matched = match &f {
                DbFailure::Database { constraint: Some(c), .. } => *c == target,
                _ => false,
            };
            if matched {
                (Err(mapped), None)
            } else {
                let record = TraceRecord { context: name.to_owned(), cause: f };
                (Err(AppError::Internal), Some(record))
            }
        },
    }
}

/// Maps any unique violation, regardless of which constraint fired, to the
/// supplied domain error; every other failure collapses to the opaque
/// `Internal`. Either way the underlying failure is traced exactly once,
/// here, with the caller-supplied context; rendering adds no second log.
pub fn with_unique_violation<T>(r: Result<T, DbFailure>, provided_err: AppError, context: &str) -> (res: (
    Result<T, AppError>,
    Option<TraceRecord>,
))
    ensures
        r matches Ok(v) ==> res.0 == Ok::<T, AppError>(v) && res.1 is None,
        r matches Err(f) ==> {
            &&& res.0 matches Err(e) && e@ == spec_unique_violation(f@, provided_err@)
            &&& res.1 matches Some(t) && t.context@ == context@ && t.cause@ == f@
        },
{
    match r {
        Ok(v) => (Ok(v), None),
        Err(f) => {
            let record = TraceRecord { context: context.to_owned(), cause: f.clone() };
            let unique = match &f {
                DbFailure::Database { unique_violation, .. } => *unique_violation,
                DbFailure::Other => false,
            };
            if unique {
                (Err(provided_err), Some(record))
            } else {
                (Err(AppError::Internal), Some(record))
            }
        },
    }
}

/// Law: a unique violation on a constraint mapped by name yields the mapped
/// domain error; an unmapped constraint name collapses to `Internal`. The
/// lookup never partially matches.
pub proof fn lemma_constraint_lookup_exact(f: DbFailureView, name: Seq<char>, mapped: AppErrorView)
    ensures
        constraint_matches(f, name) ==> spec_on_constraint(f, name, mapped) == mapped,
        !constraint_matches(f, name) ==> spec_on_constraint(f, name, mapped)
            == AppErrorView::Internal,
        (f matches DbFailureView::Database { constraint: Some(c), .. } && c != name)
            ==> spec_on_constraint(f, name, mapped) == AppErrorView::Internal,
{
}

/// Law: any unique violation maps to the one provided domain error, and
/// everything else, a database failure on another ground or any other
/// persistence failure, collapses to `Internal`.
pub proof fn lemma_unique_violation_mapping(f: DbFailureView, provided: AppErrorView)
    ensures
        is_unique_violation(f) ==> spec_unique_violation(f, provided) == provided,
        !is_unique_violation(f) ==> spec_unique_violation(f, provided) == AppErrorView::Internal,
{
}

} // verus!
