use vstd::prelude::*;

verus! {

/// The ways a resolution or an invoice request can fail.
#[derive(Debug, Clone)]
pub enum LnError {
    /// The address string is not of the form `user@domain`.
    MalformedAddress,
    /// The network exchange failed (or was cancelled).
    TransportError(String),
    /// A response arrived but breaks the protocol's schema or rules.
    ProtocolViolation(String),
    /// The requested amount lies outside the advertised sendable bounds.
    AmountOutOfRange,
    /// The payment request text is not a valid signed invoice.
    InvoiceDecodeError(String),
}

/// A protocol violation carrying the given message.
pub fn violation(msg: &str) -> (r: LnError)
    ensures
        r is ProtocolViolation,
        r->ProtocolViolation_0@ == msg@,
{
    LnError::ProtocolViolation(String::from_str(msg))
}

} // verus!
