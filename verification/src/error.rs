//! The failures that the negotiation layer reports.

use vstd::prelude::*;

verus! {

/// What can go wrong between a native graphics context and the graphics API.
///
/// A failure is always handed to the caller; nothing here retries.
#[derive(Clone, Copy, Debug, PartialEq, Eq, Hash, Structural)]
pub enum Error {
    /// The driver has invalidated the native context. Nothing read from it or
    /// sent through it can be trusted any more.
    ContextLost,
    /// The native pixel format corresponds to no format of the graphics API.
    UnsupportedFormat,
    /// The context's symbol resolver gave a null address for an entry point
    /// that the graphics API cannot do without.
    SymbolResolutionFailed,
    /// A call that issues graphics commands was made while the context was
    /// not current on the calling thread.
    CurrencyViolation,
}

} // verus!
