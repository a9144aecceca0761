use sdk_core::error::LnUrlError;
use sdk_core::invoice::parse_invoice;
use sdk_core::models::{
    LnUrlCallbackStatus, LnUrlErrorData, LnUrlWithdrawRequestData, LnUrlWithdrawResult,
};
use sdk_core::withdraw::{
    build_withdraw_callback_url, resolve_lnurl_withdraw, validate_lnurl_withdraw,
};

const INVOICE_STR: &str = "lnbc110n1p38q3gtpp5ypz09jrd8p993snjwnm68cph4ftwp22le34xd4r8ftspwshxhmnsdqqxqyjw5qcqpxsp5htlg8ydpywvsa7h3u4hdn77ehs4z4e844em0apjyvmqfkzqhhd2q9qgsqqqyssqszpxzxt9uuqzymr7zxcdccj5g69s8q7zzjs7sgxn9ejhnvdh6gqjcy22mss2yexunagm5r2gqczh8k24cwrqml3njskm548aruhpwssq9nvrvz";

fn get_test_withdraw_req_data(min_sat: u64, max_sat: u64) -> LnUrlWithdrawRequestData {
    LnUrlWithdrawRequestData {
        min_withdrawable: min_sat * 1000,
        max_withdrawable: max_sat * 1000,
        k1: "k1k1k1k1k1".to_string(),
        default_description: "test description".to_string(),
        callback: "https://localhost/callback".to_string(),
    }
}

#[test]
fn test_lnurl_withdraw_success() {
    let req_invoice = parse_invoice(INVOICE_STR).unwrap();
    let withdraw_req = get_test_withdraw_req_data(0, 100);

    // The local validation passes and yields the callback URL the caller
    // must contact; an OK reply then grants the withdraw over the same
    // invoice that was sent.
    let url = validate_lnurl_withdraw(&withdraw_req, &req_invoice).unwrap();
    assert_eq!(
        url,
        format!("https://localhost/callback?k1=k1k1k1k1k1&pr={INVOICE_STR}")
    );
    assert!(matches!(
        resolve_lnurl_withdraw(LnUrlCallbackStatus::Success, req_invoice.clone()),
        LnUrlWithdrawResult::Success { data } if data.invoice == req_invoice
    ));
}

#[test]
fn test_lnurl_withdraw_validate_amount_failure() {
    let invoice = parse_invoice(INVOICE_STR).unwrap();
    // The invoice asks for 11000 msat, above a 1 sat ceiling: the endpoint
    // is never contacted.
    let withdraw_req = get_test_withdraw_req_data(0, 1);
    assert!(validate_lnurl_withdraw(&withdraw_req, &invoice).is_err());
}

#[test]
fn test_lnurl_withdraw_endpoint_failure() {
    let invoice = parse_invoice(INVOICE_STR).unwrap();
    let withdraw_req = get_test_withdraw_req_data(0, 100);
    assert!(validate_lnurl_withdraw(&withdraw_req, &invoice).is_ok());

    // The endpoint replies with an explicit error status: the reason is
    // carried through.
    let status = LnUrlCallbackStatus::ErrorStatus {
        data: LnUrlErrorData { reason: "error".to_string() },
    };
    assert!(matches!(
        resolve_lnurl_withdraw(status, invoice),
        LnUrlWithdrawResult::ErrorStatus { data } if data.reason == "error"
    ));
}

#[test]
fn test_withdraw_amount_below_minimum() {
    let invoice = parse_invoice(INVOICE_STR).unwrap();
    let withdraw_req = get_test_withdraw_req_data(100, 200);
    assert!(matches!(
        validate_lnurl_withdraw(&withdraw_req, &invoice),
        Err(LnUrlError::Generic { .. })
    ));
}

#[test]
fn test_withdraw_bad_callback_url() {
    let invoice = parse_invoice(INVOICE_STR).unwrap();
    let mut withdraw_req = get_test_withdraw_req_data(0, 100);
    withdraw_req.callback = "not a url".to_string();
    assert!(matches!(
        build_withdraw_callback_url(&withdraw_req, &invoice),
        Err(LnUrlError::InvalidUri { .. })
    ));
}
