//! Error taxonomy of the pipeline. Per-item errors are recorded and the loops
//! continue; only a closed queue is fatal.
use vstd::prelude::*;

verus! {

#[derive(Clone, Copy, Debug, PartialEq, Eq, Structural)]
pub enum CrawlError {
    /// The item is absent upstream: terminal for that item, recorded, not retried.
    NotFound,
    /// The daily quota of every credential is spent: recoverable on the next cycle.
    QuotaExceeded,
    /// A temporary upstream failure: recoverable on the next cycle.
    Transient,
    /// A malformed upstream payload: terminal for that item.
    ParseError,
    /// A failure of the backing store: caught at the worker-loop boundary.
    StorageError,
    /// The receiving worker pool is gone: fatal, the loop exits.
    QueueClosed,
    /// The credential pool is empty.
    NoKeysConfigured,
}

} // verus!
