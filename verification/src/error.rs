//! The failures a provisioning run can end with.

use vstd::prelude::*;

verus! {

/// Why a provisioning step did not complete.
#[derive(Debug, Clone, Copy, PartialEq, Eq, Structural)]
pub enum WgInitErrors {
    /// The key tool did not hand out a key: it exited with a status other than
    /// zero while generating a private key or while deriving a public one.
    FailedToGenPrivateKey,
    /// A public key could not be derived. The library does not tell this
    /// apart from a private key that could not be generated and reports both
    /// as `FailedToGenPrivateKey`; the variant is here for callers that do.
    FailedToGenPublicKey,
    /// No default route, and so no outbound interface, could be found.
    FailedToGetDefaultDevice,
    /// The server's interface configuration could not be written.
    FailedToWriteWG0Conf,
    /// A key file or a client configuration could not be written.
    PersistenceFailure,
    /// The /24 subnet has no free client address left.
    PeerAllocationExhausted,
    /// A host command exited with a status other than zero, or answered with
    /// something that cannot be read.
    ProcessExecutionFailure,
    /// The request itself is not acceptable; nothing was run or written.
    ValidationFailure,
}

/// A failed step as it is reported to the operator: the kind of failure, the
/// line that says what went wrong, and what the failing program wrote to its
/// error stream, unchanged. Either text may be empty.
#[derive(Debug, Clone, PartialEq, Eq)]
pub struct Failure {
    pub error: WgInitErrors,
    pub message: String,
    pub diagnostic: String,
}

/// A [`Failure`] as plain text.
pub struct FailureView {
    pub error: WgInitErrors,
    pub message: Seq<char>,
    pub diagnostic: Seq<char>,
}

impl View for Failure {
    type V = FailureView;

    open spec fn view(&self) -> FailureView {
        FailureView { error: self.error, message: self.message@, diagnostic: self.diagnostic@ }
    }
}

impl Failure {
    /// The failure of kind `error` with the given texts.
    pub fn new(error: WgInitErrors, message: &str, diagnostic: &str) -> (f: Failure)
        ensures
            f@ == (FailureView { error, message: message@, diagnostic: diagnostic@ }),
    {
        Failure { error, message: message.to_owned(), diagnostic: diagnostic.to_owned() }
    }
}

} // verus!
