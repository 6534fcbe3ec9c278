use vstd::prelude::*;

verus! {

/// Why a call against the inference server failed.
#[derive(Clone, Copy, Debug, PartialEq, Eq, Structural)]
pub enum AiError {
    /// The connection failed or broke before a response arrived.
    Transport,
    /// The client-side deadline for a generation call passed.
    Timeout,
    /// The server answered with a non-success HTTP status.
    Server { status: u16 },
    /// The response body did not have the expected shape.
    Protocol,
    /// The availability probe failed before an operation that needs the server.
    ServiceUnavailable,
}

} // verus!
