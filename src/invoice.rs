use vstd::prelude::*;
use lightning_invoice::Bolt11Invoice;
use crate::descriptor::ServiceDescriptor;
use crate::error::{LnError, violation};

verus! {

#[verifier::external_type_specification]
#[verifier::external_body]
pub struct ExBolt11Invoice(Bolt11Invoice);

/// Whether a text is a valid signed Bolt11 invoice: it decodes, and its
/// fields and signature check out.
pub uninterp spec fn bolt11_valid(text: Seq<char>) -> bool;

/// The amount in millisatoshis that a valid invoice text carries, if any.
pub uninterp spec fn bolt11_amount(text: Seq<char>) -> Option<u64>;

/// Relies on lightning_invoice's `FromStr` for `Bolt11Invoice` (it parses a
/// `SignedRawBolt11Invoice`, then checks it with `Bolt11Invoice::from_signed`)
/// and on `Bolt11Invoice::amount_milli_satoshis`, which reads the invoice's
/// amount: both depend on the text alone. The error is kept as its message.
#[verifier::external_body]
fn parse_bolt11(text: &str) -> (r: Result<(Bolt11Invoice, Option<u64>), String>)
    ensures
        r is Ok <==> bolt11_valid(text@),
        r is Ok ==> r->Ok_0.1 == bolt11_amount(text@),
{
    match text.parse::<Bolt11Invoice>() {
        Ok(invoice) => {
            let amount = invoice.amount_milli_satoshis();
            Ok((invoice, amount))
        },
        Err(e) => Err(e.to_string()),
    }
}

/// The action a service asks the wallet to show after payment.
#[derive(Debug, Clone)]
pub struct SuccessAction {
    pub tag: String,
    pub message: String,
}

/// A decoded callback payload. A field the payload lacks is `None`.
#[derive(Debug, Clone)]
pub struct CallbackResponse {
    pub status: Option<String>,
    pub success_action: Option<SuccessAction>,
    pub verify: Option<String>,
    pub routes: Option<Vec<String>>,
    pub pr: Option<String>,
}

/// A decoded invoice, with the amount it carries (if any), as
/// `Bolt11Invoice::amount_milli_satoshis` reads it.
pub struct Invoice {
    pub bolt11: Bolt11Invoice,
    pub amount_msat: Option<u64>,
}

/// The decimal digits, in order.
pub open spec fn digits() -> Seq<char> {
    "0123456789"@
}

/// The decimal representation of `n`.
pub open spec fn decimal(n: nat) -> Seq<char>
    decreases n,
{
    if n < 10 {
        digits().subrange(n as int, n as int + 1)
    } else {
        decimal(n / 10) + digits().subrange((n % 10) as int, (n % 10) as int + 1)
    }
}

/// The callback request for an amount.
pub open spec fn invoice_url_of(callback: Seq<char>, amount: nat) -> Seq<char> {
    callback + "?amount="@ + decimal(amount)
}

/// An invoice carrying `invoice_amount` is consistent with a request for
/// `amount_msat`.
pub open spec fn amount_consistent(invoice_amount: Option<u64>, amount_msat: int) -> bool {
    invoice_amount is Some ==> invoice_amount->Some_0 == amount_msat
}

/// The decimal representation of a number.
pub fn decimal_string(x: u64) -> (r: String)
    ensures
        r@ == decimal(x as nat),
{
    let digit_chars = "0123456789";
    proof {
        reveal_strlit("0123456789");
    }
    let d0 = (x % 10) as usize;
    let mut acc = String::from_str(digit_chars.substring_char(d0, d0 + 1));
    let mut n: u64 = x / 10;
    while n > 0
        invariant
            digit_chars@ == digits(),
            digits().len() == 10,
            n == 0 ==> decimal(x as nat) == acc@,
            n > 0 ==> decimal(x as nat) == decimal(n as nat) + acc@,
        decreases n,
    {
        let d = (n % 10) as usize;
        let head = String::from_str(digit_chars.substring_char(d, d + 1));
        let ghost prev = acc@;
        acc = head.concat(acc.as_str());
        proof {
            if n >= 10 {
                assert(decimal(n as nat) == decimal((n / 10) as nat) + head@);
                assert(decimal((n / 10) as nat) + head@ + prev =~= decimal((n / 10) as nat) + (
                head@ + prev));
            }
        }
        n = n / 10;
    }
    acc
}

impl ServiceDescriptor {
    /// The URL that requests an invoice for `amount_msat`, or
    /// `AmountOutOfRange` when the amount lies outside the sendable bounds.
    pub fn invoice_request_url(&self, amount_msat: i64) -> (r: Result<String, LnError>)
        requires
            self.wf(),
        ensures
            r is Ok <==> self.accepts_amount(amount_msat as int),
            r is Ok ==> r->Ok_0@ == invoice_url_of(self.callback_url@, amount_msat as nat),
            r is Err ==> r->Err_0 is AmountOutOfRange,
    {
        if amount_msat < self.min_sendable_msat || amount_msat > self.max_sendable_msat {
            return Err(LnError::AmountOutOfRange);
        }
        let mut url = self.callback_url.clone();
        url.append("?amount=");
        let digits_of_amount = decimal_string(amount_msat as u64);
        url.append(digits_of_amount.as_str());
        Ok(url)
    }

    /// Turns a decoded callback payload (`None` when the body was not JSON of
    /// the expected shape) into the invoice for `amount_msat`.
    pub fn invoice_from_callback(&self, amount_msat: i64, decoded: Option<CallbackResponse>) -> (r:
        Result<Invoice, LnError>)
        requires
            self.wf(),
        ensures
            !self.accepts_amount(amount_msat as int) ==> r is Err && r->Err_0 is AmountOutOfRange,
            r is Err && r->Err_0 is AmountOutOfRange ==> !self.accepts_amount(amount_msat as int),
            r is Err ==> (r->Err_0 is AmountOutOfRange || r->Err_0 is ProtocolViolation
                || r->Err_0 is InvoiceDecodeError),
            self.accepts_amount(amount_msat as int) && !(decoded is Some
                && decoded->Some_0.pr is Some) ==> r is Err && r->Err_0 is ProtocolViolation
                && r->Err_0->ProtocolViolation_0@ == "invalid callback response"@,
            self.accepts_amount(amount_msat as int) && decoded is Some && decoded->Some_0.pr is Some
                ==> {
                let pr = decoded->Some_0.pr->Some_0;
                &&& (r is Err && r->Err_0 is InvoiceDecodeError) <==> !bolt11_valid(pr@)
                &&& bolt11_valid(pr@) ==> (r is Ok <==> amount_consistent(
                    bolt11_amount(pr@),
                    amount_msat as int,
                ))
                &&& r is Ok ==> r->Ok_0.amount_msat == bolt11_amount(pr@)
                &&& (r is Err && r->Err_0 is ProtocolViolation) ==> r->Err_0->ProtocolViolation_0@
                    == "invoice amount mismatch"@
            },
            r is Ok ==> amount_consistent(r->Ok_0.amount_msat, amount_msat as int),
    {
        if amount_msat < self.min_sendable_msat || amount_msat > self.max_sendable_msat {
            return Err(LnError::AmountOutOfRange);
        }
        let pr = payment_request(decoded)?;
        decode_invoice(pr.as_str(), amount_msat)
    }
}

/// The payment request text of a decoded callback payload; a missing payload
/// or a missing `pr` is an invalid callback response.
pub fn payment_request(decoded: Option<CallbackResponse>) -> (r: Result<String, LnError>)
    ensures
        r is Ok <==> (decoded is Some && decoded->Some_0.pr is Some),
        r is Ok ==> r->Ok_0 == decoded->Some_0.pr->Some_0,
        r is Err ==> r->Err_0 is ProtocolViolation && r->Err_0->ProtocolViolation_0@
            == "invalid callback response"@,
{
    match decoded {
        Some(CallbackResponse { pr: Some(pr), .. }) => Ok(pr),
        _ => Err(violation("invalid callback response")),
    }
}

/// Accepts a decoded invoice for a request of `amount_msat` when the amount it
/// carries, if any, is the one requested.
pub fn accept_invoice(bolt11: Bolt11Invoice, invoice_amount: Option<u64>, amount_msat: i64) -> (r:
    Result<Invoice, LnError>)
    ensures
        r is Ok <==> amount_consistent(invoice_amount, amount_msat as int),
        r is Ok ==> r->Ok_0.amount_msat == invoice_amount,
        r is Err ==> r->Err_0 is ProtocolViolation && r->Err_0->ProtocolViolation_0@
            == "invoice amount mismatch"@,
{
    match invoice_amount {
        Some(a) => {
            if amount_msat < 0 || a != amount_msat as u64 {
                return Err(violation("invoice amount mismatch"));
            }
        },
        None => {},
    }
    Ok(Invoice { bolt11, amount_msat: invoice_amount })
}

/// Decodes a payment request text as a signed invoice for `amount_msat`.
pub fn decode_invoice(pr: &str, amount_msat: i64) -> (r: Result<Invoice, LnError>)
    ensures
        (r is Err && r->Err_0 is InvoiceDecodeError) <==> !bolt11_valid(pr@),
        bolt11_valid(pr@) ==> (r is Ok <==> amount_consistent(
            bolt11_amount(pr@),
            amount_msat as int,
        )),
        r is Ok ==> r->Ok_0.amount_msat == bolt11_amount(pr@),
        r is Ok ==> amount_consistent(r->Ok_0.amount_msat, amount_msat as int),
        r is Err && !(r->Err_0 is InvoiceDecodeError) ==> r->Err_0 is ProtocolViolation
            && r->Err_0->ProtocolViolation_0@ == "invoice amount mismatch"@,
{
    match parse_bolt11(pr) {
        Ok((bolt11, invoice_amount)) => accept_invoice(bolt11, invoice_amount, amount_msat),
        Err(msg) => Err(LnError::InvoiceDecodeError(msg)),
    }
}

} // verus!
