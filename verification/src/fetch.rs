//! Lifecycle of one asynchronous load.
use vstd::prelude::*;

verus! {

/// The progression of a single load operation: nothing requested yet, a
/// request in flight, a completed load carrying its payload, or a failed
/// load carrying a human-readable reason.
///
/// A value is replaced wholesale on every transition; there is no partial
/// mutation of a variant's payload.
#[derive(Debug, Clone, PartialEq, Eq)]
pub enum FetchState<T> {
    Empty,
    Fetching,
    Done(T),
    Failed(String),
}

} // verus!
