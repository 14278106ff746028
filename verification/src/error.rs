use vstd::prelude::*;

verus! {

/// How a gateway operation failed: at the transport, because the provider
/// broke the expected protocol (bad status or unparseable body), or because
/// the provider returned a structured rejection.
#[derive(Clone, Copy, Debug, PartialEq, Eq, Structural)]
pub enum ErrorKind {
    Transport,
    ProviderProtocol,
    ProviderRejected,
}

/// The single error type every gateway operation returns.  The kind is kept
/// for logging even though the HTTP boundary collapses all of them into one
/// status code.
#[derive(Clone, Copy, Debug, PartialEq, Eq, Structural)]
pub struct TinkApiError {
    pub kind: ErrorKind,
}

impl TinkApiError {
    pub fn new(kind: ErrorKind) -> (r: Self)
        ensures
            r.kind == kind,
    {
        TinkApiError { kind }
    }

    pub fn transport() -> (r: Self)
        ensures
            r.kind is Transport,
    {
        TinkApiError { kind: ErrorKind::Transport }
    }

    pub fn protocol() -> (r: Self)
        ensures
            r.kind is ProviderProtocol,
    {
        TinkApiError { kind: ErrorKind::ProviderProtocol }
    }

    /// A short description of the failure, for logging.
    pub fn message(&self) -> (r: &'static str)
        ensures
            self.kind is Transport ==> r@ == "provider unreachable"@,
            self.kind is ProviderProtocol ==> r@ == "provider protocol error"@,
            self.kind is ProviderRejected ==> r@ == "provider rejected the request"@,
    {
        match self.kind {
            ErrorKind::Transport => "provider unreachable",
            ErrorKind::ProviderProtocol => "provider protocol error",
            ErrorKind::ProviderRejected => "provider rejected the request",
        }
    }
}

} // verus!
