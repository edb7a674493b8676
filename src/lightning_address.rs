use vstd::prelude::*;
use crate::address::Address;
use crate::descriptor::{
    ServiceDescriptor,
    WellKnownResponse,
    descriptor_from_response,
    has_required_fields,
    is_valid_discovery,
    normalized,
};
use crate::error::LnError;

verus! {

/// A Lightning Address whose payment service has been discovered and
/// validated.
#[derive(Debug, Clone)]
pub struct LightningAddress {
    pub address: Address,
    pub descriptor: ServiceDescriptor,
}

impl LightningAddress {
    /// The resolved address's invariant.
    pub open spec fn wf(&self) -> bool {
        self.descriptor.wf()
    }

    /// Completes the resolution of `address` with the decoded discovery
    /// payload its well-known endpoint returned (`None` when the body was not
    /// JSON of the expected shape).
    pub fn from_discovery(address: Address, decoded: Option<WellKnownResponse>) -> (r: Result<
        LightningAddress,
        LnError,
    >)
        ensures
            r is Ok <==> (decoded is Some && is_valid_discovery(decoded->Some_0)),
            r is Err ==> r->Err_0 is ProtocolViolation,
            r is Err ==> (r->Err_0->ProtocolViolation_0@ == "invalid sendable range"@ <==> (
            decoded is Some && has_required_fields(decoded->Some_0))),
            r is Err && !(decoded is Some && has_required_fields(decoded->Some_0))
                ==> r->Err_0->ProtocolViolation_0@ == "invalid discovery response"@,
            r is Ok ==> {
                let a = r->Ok_0;
                let w = decoded->Some_0;
                &&& a.wf()
                &&& a.address == address
                &&& a.descriptor.callback_url@ == normalized(w.callback->Some_0@)
                &&& a.descriptor.min_sendable_msat == w.min_sendable->Some_0
                &&& a.descriptor.max_sendable_msat == w.max_sendable->Some_0
                &&& a.descriptor.metadata == w.metadata->Some_0
                &&& a.descriptor.allows_comments == (w.comment_allowed is Some
                    && w.comment_allowed->Some_0 > 0)
                &&& a.descriptor.nostr_pubkey == w.nostr_pubkey
                &&& a.descriptor.status == w.status
                &&& a.descriptor.payer_data == w.payer_data
            },
    {
        let descriptor = descriptor_from_response(decoded)?;
        Ok(LightningAddress { address, descriptor })
    }
}

} // verus!
