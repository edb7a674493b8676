use vstd::prelude::*;
use crate::error::{LnError, violation};

verus! {

/// Whether the payer must supply one piece of payer data.
#[derive(Debug, Clone)]
pub struct PayerDataDetails {
    pub mandatory: bool,
}

/// The payer data a service asks for.
#[derive(Debug, Clone)]
pub struct PayerData {
    pub name: Option<PayerDataDetails>,
    pub email: Option<PayerDataDetails>,
    pub pubkey: Option<PayerDataDetails>,
}

/// A decoded discovery payload. A field the payload lacks is `None`.
#[derive(Debug, Clone)]
pub struct WellKnownResponse {
    pub status: Option<String>,
    pub tag: Option<String>,
    pub comment_allowed: Option<u32>,
    pub callback: Option<String>,
    pub metadata: Option<String>,
    pub min_sendable: Option<i64>,
    pub max_sendable: Option<i64>,
    pub payer_data: Option<PayerData>,
    pub nostr_pubkey: Option<String>,
    pub allows_nostr: Option<bool>,
}

/// A validated, request-ready payment service.
#[derive(Debug, Clone)]
pub struct ServiceDescriptor {
    pub callback_url: String,
    pub min_sendable_msat: i64,
    pub max_sendable_msat: i64,
    pub metadata: String,
    pub allows_comments: bool,
    pub nostr_pubkey: Option<String>,
    pub status: Option<String>,
    pub payer_data: Option<PayerData>,
}

/// The tag that marks a pay-request discovery payload.
pub open spec fn pay_request_tag() -> Seq<char> {
    "payRequest"@
}

/// `s` ends with a path separator.
pub open spec fn ends_with_slash(s: Seq<char>) -> bool {
    s.len() > 0 && s.last() == '/'
}

/// `s` with its trailing path separators removed.
pub open spec fn normalized(s: Seq<char>) -> Seq<char>
    decreases s.len(),
{
    if ends_with_slash(s) {
        normalized(s.drop_last())
    } else {
        s
    }
}

/// The sendable bounds are a valid range of non-negative amounts.
pub open spec fn valid_range(min: int, max: int) -> bool {
    0 <= min <= max
}

/// Every required field is present and the tag is the pay-request tag.
pub open spec fn has_required_fields(w: WellKnownResponse) -> bool {
    &&& w.tag is Some
    &&& w.tag->Some_0@ == pay_request_tag()
    &&& w.callback is Some
    &&& w.metadata is Some
    &&& w.min_sendable is Some
    &&& w.max_sendable is Some
}

/// A discovery payload that yields a descriptor.
pub open spec fn is_valid_discovery(w: WellKnownResponse) -> bool {
    &&& has_required_fields(w)
    &&& valid_range(w.min_sendable->Some_0 as int, w.max_sendable->Some_0 as int)
}

impl ServiceDescriptor {
    /// The descriptor's invariant.
    pub open spec fn wf(&self) -> bool {
        &&& !ends_with_slash(self.callback_url@)
        &&& valid_range(self.min_sendable_msat as int, self.max_sendable_msat as int)
    }

    /// `amount` lies within the advertised sendable bounds.
    pub open spec fn accepts_amount(&self, amount: int) -> bool {
        self.min_sendable_msat <= amount <= self.max_sendable_msat
    }
}

/// The normalized form has no trailing separator.
pub proof fn lemma_normalized_no_slash(s: Seq<char>)
    ensures
        !ends_with_slash(normalized(s)),
    decreases s.len(),
{
    if ends_with_slash(s) {
        lemma_normalized_no_slash(s.drop_last());
    }
}

/// Normalizing a callback URL twice is the same as normalizing it once, and a
/// URL without a trailing separator is left as it is.
pub proof fn lemma_normalize_idempotent(s: Seq<char>)
    ensures
        normalized(normalized(s)) == normalized(s),
        !ends_with_slash(s) ==> normalized(s) == s,
{
    lemma_normalized_no_slash(s);
}

/// Removes the trailing path separators of a callback URL.
pub fn normalize_callback(callback: &str) -> (r: String)
    ensures
        r@ == normalized(callback@),
        !ends_with_slash(r@),
{
    let mut n = callback.unicode_len();
    assert(callback@.subrange(0, n as int) =~= callback@);
    while n > 0 && callback.get_char(n - 1) == '/'
        invariant
            n <= callback@.len(),
            normalized(callback@.subrange(0, n as int)) == normalized(callback@),
        decreases n,
    {
        assert(callback@.subrange(0, n as int).drop_last() =~= callback@.subrange(0, n - 1));
        n = n - 1;
    }
    let r = String::from_str(callback.substring_char(0, n));
    proof {
        lemma_normalized_no_slash(r@);
    }
    r
}

/// Builds a descriptor from a decoded discovery payload (`None` when the body
/// was not JSON of the expected shape). A missing payload, a missing required
/// field or a wrong tag is reported as an invalid discovery response; bounds
/// that are negative or out of order as an invalid sendable range.
pub fn descriptor_from_response(decoded: Option<WellKnownResponse>) -> (r: Result<
    ServiceDescriptor,
    LnError,
>)
    ensures
        r is Ok <==> (decoded is Some && is_valid_discovery(decoded->Some_0)),
        r is Err ==> r->Err_0 is ProtocolViolation,
        r is Err ==> (r->Err_0->ProtocolViolation_0@ == "invalid sendable range"@ <==> (
        decoded is Some && has_required_fields(decoded->Some_0))),
        r is Err && !(decoded is Some && has_required_fields(decoded->Some_0))
            ==> r->Err_0->ProtocolViolation_0@ == "invalid discovery response"@,
        r is Ok ==> {
            let w = decoded->Some_0;
            let d = r->Ok_0;
            &&& d.wf()
            &&& d.callback_url@ == normalized(w.callback->Some_0@)
            &&& d.min_sendable_msat == w.min_sendable->Some_0
            &&& d.max_sendable_msat == w.max_sendable->Some_0
            &&& d.metadata == w.metadata->Some_0
            &&& d.allows_comments == (w.comment_allowed is Some && w.comment_allowed->Some_0 > 0)
            &&& d.nostr_pubkey == w.nostr_pubkey
            &&& d.status == w.status
            &&& d.payer_data == w.payer_data
        },
{
    proof {
        reveal_strlit("invalid sendable range");
        reveal_strlit("invalid discovery response");
        assert("invalid sendable range"@.len() != "invalid discovery response"@.len());
    }
    let w = match decoded {
        Some(w) => w,
        None => return Err(violation("invalid discovery response")),
    };
    let tag_ok = match &w.tag {
        Some(t) => t.eq(&String::from_str("payRequest")),
        None => false,
    };
    if !tag_ok || w.callback.is_none() || w.metadata.is_none() || w.min_sendable.is_none()
        || w.max_sendable.is_none() {
        return Err(violation("invalid discovery response"));
    }
    let WellKnownResponse {
        status,
        tag: _,
        comment_allowed,
        callback,
        metadata,
        min_sendable,
        max_sendable,
        payer_data,
        nostr_pubkey,
        allows_nostr: _,
    } = w;
    let (callback, metadata, min, max) = match (callback, metadata, min_sendable, max_sendable) {
        (Some(c), Some(m), Some(lo), Some(hi)) => (c, m, lo, hi),
        _ => return Err(violation("invalid discovery response")),
    };
    if min < 0 || min > max {
        return Err(violation("invalid sendable range"));
    }
    let allows_comments = match comment_allowed {
        Some(c) => c > 0,
        None => false,
    };
    Ok(ServiceDescriptor {
        callback_url: normalize_callback(callback.as_str()),
        min_sendable_msat: min,
        max_sendable_msat: max,
        metadata,
        allows_comments,
        nostr_pubkey,
        status,
        payer_data,
    })
}

} // verus!
