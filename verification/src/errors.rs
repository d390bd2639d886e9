//! The error taxonomy of the core: transport failures, malformed or missing
//! remote items, event-source failures, and failures of the external
//! URL-opening action.

use vstd::prelude::*;

verus! {

/// Why an operation of the core, or of the surrounding binary on its
/// behalf, failed.
#[derive(Clone, Copy, Debug, PartialEq, Eq, Structural)]
pub enum AppError {
    /// Transport or connection failure while talking to the remote API.
    Network,
    /// A response body that does not match the expected shape, including a
    /// null or missing remote item.
    Decode,
    /// The terminal or another event source failed.
    Input,
    /// Delegating to the external URL opener failed.
    ExternalAction,
}

} // verus!
