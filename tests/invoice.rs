use lnaddress::descriptor::{descriptor_from_response, ServiceDescriptor, WellKnownResponse};
use lnaddress::error::LnError;
use lnaddress::invoice::{decimal_string, decode_invoice, payment_request, CallbackResponse};

const SAMPLE_INVOICE: &str = "lnbc100p1psj9jhxdqud3jxktt5w46x7unfv9kz6mn0v3jsnp4q0d3p2sfluzdx45tqcs\
h2pu5qc7lgq0xs578ngs6s0s68ua4h7cvspp5q6rmq35js88zp5dvwrv9m459tnk2zunwj5jalqtyxqulh0l\
5gflssp5nf55ny5gcrfl30xuhzj3nphgj27rstekmr9fw3ny5989s300gyus9qyysgqcqpcrzjqw2sxwe993\
h5pcm4dxzpvttgza8zhkqxpgffcrf5v25nwpr3cmfg7z54kuqq8rgqqqqqqqq2qqqqq9qq9qrzjqd0ylaqcl\
j9424x9m8h2vcukcgnm6s56xfgu3j78zyqzhgs4hlpzvznlugqq9vsqqqqqqqlgqqqqqeqq9qrzjqwldmj9d\
ha74df76zhx6l9we0vjdquygcdt3kssupehe64g6yyp5yz5rhuqqwccqqyqqqqlgqqqqjcqq9qrzjqf9e58a\
guqr0rcun0ajlvmzq3ek63cw2w282gv3z5uupmuwvgjtq2z55qsqqg6qqqyqqqrtnqqqzq3cqygrzjqvphms\
ywntrrhqjcraumvc4y6r8v4z5v593trte429v4hredj7ms5z52usqq9ngqqqqqqqlgqqqqqqgq9qrzjq2v0v\
p62g49p7569ev48cmulecsxe59lvaw3wlxm7r982zxa9zzj7z5l0cqqxusqqyqqqqlgqqqqqzsqygarl9fh3\
8s0gyuxjjgux34w75dnc6xp2l35j7es3jd4ugt3lu0xzre26yg5m7ke54n2d5sym4xcmxtl8238xxvw5h5h5\
j5r6drg6k6zcqj0fcwg";

fn descriptor(min: i64, max: i64) -> ServiceDescriptor {
    descriptor_from_response(Some(WellKnownResponse {
        status: None,
        tag: Some("payRequest".to_string()),
        comment_allowed: None,
        callback: Some("https://example.com/cb/".to_string()),
        metadata: Some("[]".to_string()),
        min_sendable: Some(min),
        max_sendable: Some(max),
        payer_data: None,
        nostr_pubkey: None,
        allows_nostr: None,
    }))
    .unwrap()
}

fn callback(pr: Option<&str>) -> CallbackResponse {
    CallbackResponse {
        status: None,
        success_action: None,
        verify: None,
        routes: None,
        pr: pr.map(|s| s.to_string()),
    }
}

#[test]
fn decimal_string_values() {
    assert_eq!(decimal_string(0), "0");
    assert_eq!(decimal_string(7), "7");
    assert_eq!(decimal_string(10), "10");
    assert_eq!(decimal_string(5000), "5000");
    assert_eq!(decimal_string(u64::MAX), "18446744073709551615");
}

#[test]
fn request_url_in_range() {
    let d = descriptor(1000, 100000000);
    assert_eq!(d.invoice_request_url(5000).unwrap(), "https://example.com/cb?amount=5000");
    assert_eq!(d.invoice_request_url(1000).unwrap(), "https://example.com/cb?amount=1000");
    assert_eq!(
        d.invoice_request_url(100000000).unwrap(),
        "https://example.com/cb?amount=100000000"
    );
}

#[test]
fn request_url_out_of_range() {
    let d = descriptor(1000, 100000000);
    assert!(matches!(d.invoice_request_url(999), Err(LnError::AmountOutOfRange)));
    assert!(matches!(d.invoice_request_url(100000001), Err(LnError::AmountOutOfRange)));
    assert!(matches!(d.invoice_request_url(-5), Err(LnError::AmountOutOfRange)));
}

#[test]
fn payment_request_present() {
    assert_eq!(payment_request(Some(callback(Some("lnbc1")))).unwrap(), "lnbc1");
}

#[test]
fn payment_request_missing() {
    match payment_request(Some(callback(None))) {
        Err(LnError::ProtocolViolation(m)) => assert_eq!(m, "invalid callback response"),
        other => panic!("unexpected {:?}", other),
    }
    assert!(matches!(payment_request(None), Err(LnError::ProtocolViolation(_))));
}

#[test]
fn decode_rejects_garbage() {
    assert!(matches!(decode_invoice("not an invoice", 10), Err(LnError::InvoiceDecodeError(_))));
    assert!(matches!(decode_invoice("", 10), Err(LnError::InvoiceDecodeError(_))));
}

#[test]
fn decode_accepts_valid_invoice() {
    let inv = decode_invoice(SAMPLE_INVOICE, 10).unwrap();
    assert_eq!(inv.amount_msat, Some(10));
    assert_eq!(inv.bolt11.amount_milli_satoshis(), Some(10));
}

#[test]
fn decode_rejects_amount_mismatch() {
    match decode_invoice(SAMPLE_INVOICE, 20) {
        Err(LnError::ProtocolViolation(m)) => assert_eq!(m, "invoice amount mismatch"),
        _ => panic!("expected an amount mismatch"),
    }
}

#[test]
fn callback_with_valid_invoice() {
    let d = descriptor(1, 1000);
    let inv = d.invoice_from_callback(10, Some(callback(Some(SAMPLE_INVOICE)))).unwrap();
    assert_eq!(inv.amount_msat, Some(10));
    assert_eq!(inv.bolt11.amount_milli_satoshis(), Some(10));
}

#[test]
fn callback_with_mismatched_invoice_amount() {
    let d = descriptor(1, 1000);
    match d.invoice_from_callback(20, Some(callback(Some(SAMPLE_INVOICE)))) {
        Err(LnError::ProtocolViolation(m)) => assert_eq!(m, "invoice amount mismatch"),
        _ => panic!("expected an amount mismatch"),
    }
}

#[test]
fn callback_missing_pr() {
    let d = descriptor(1, 1000);
    for decoded in [Some(callback(None)), None] {
        match d.invoice_from_callback(10, decoded) {
            Err(LnError::ProtocolViolation(m)) => assert_eq!(m, "invalid callback response"),
            _ => panic!("expected an invalid callback response"),
        }
    }
}

#[test]
fn callback_amount_out_of_range() {
    let d = descriptor(100, 1000);
    assert!(matches!(
        d.invoice_from_callback(10, Some(callback(Some(SAMPLE_INVOICE)))),
        Err(LnError::AmountOutOfRange)
    ));
}

#[test]
fn callback_with_undecodable_invoice() {
    let d = descriptor(1, 1000);
    assert!(matches!(
        d.invoice_from_callback(10, Some(callback(Some("lnbc-broken")))),
        Err(LnError::InvoiceDecodeError(_))
    ));
}
