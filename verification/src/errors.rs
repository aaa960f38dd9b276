//! Failures of a crawl run.

use vstd::prelude::*;

verus! {

/// Why a unit of work, or the whole run, failed.
///
/// Causes that come from the network or the file system are held by their
/// text, so that a value can be carried through the result path, compared and
/// shown without the component that raised it.
#[derive(Clone, Debug, PartialEq, Eq)]
pub enum CrablerError {
    /// Reading or writing a file failed; holds the cause.
    Io(String),
    /// The result channel was closed while work was still outstanding.
    AsyncRecvError,
    /// A work item could not be enqueued; holds the URL of the item.
    AsyncSendError(String),
    /// The transport failed; holds the status code and the cause.
    SurfError(u16, String),
    /// A selector cannot be dispatched; holds the selector.
    Selector(String),
}

} // verus!
