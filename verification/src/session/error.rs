//! What a session runtime answers when it does not do as asked.

use vstd::prelude::*;

verus! {

/// Failure of the runtime that owns a session.
#[derive(Debug, PartialEq, Eq)]
pub enum SessionRuntimeError {
    /// The runtime accepts no further work.
    Stopped,
    /// The operation was refused or failed.
    Failed { message: String },
}

} // verus!
