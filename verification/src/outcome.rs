//! The uniform result returned to every caller of apply and delete.

use vstd::prelude::*;

verus! {

/// The outcome of one apply or delete operation: a success flag plus an
/// optional human-readable error message. A successful outcome never
/// carries an error message.
#[derive(Clone, Debug, PartialEq, Eq)]
pub struct OperationResponse {
    /// An optional message describing the error if one occurred
    pub error: Option<String>,
    /// Whether or not the operation succeeded
    pub succeeded: bool,
}

impl OperationResponse {
    /// A response is well formed when success excludes an error message.
    pub open spec fn wf(self) -> bool {
        self.succeeded ==> self.error is None
    }

    /// The successful outcome.
    pub fn ok() -> (r: OperationResponse)
        ensures
            r.succeeded,
            r.error is None,
            r.wf(),
    {
        OperationResponse { error: None, succeeded: true }
    }

    /// The failed outcome, carrying the remote error text.
    pub fn failed(message: String) -> (r: OperationResponse)
        ensures
            !r.succeeded,
            r.error == Some(message),
            r.wf(),
    {
        OperationResponse { error: Some(message), succeeded: false }
    }
}

} // verus!
