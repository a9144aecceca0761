//! The LNURL-withdraw flow around its one network exchange: local
//! validation of the invoice amount against the endpoint's limits and the
//! callback URL to contact, then the interpretation of the endpoint's
//! reply. The HTTP GET itself happens outside this crate, between the two.

use vstd::prelude::*;
use crate::error::LnUrlError;
use crate::invoice::LNInvoice;
use crate::models::{
    LnUrlCallbackStatus, LnUrlWithdrawRequestData, LnUrlWithdrawResult, LnUrlWithdrawSuccessData,
};

verus! {

/// What the withdraw callback URL for the given base, `k1` and payment
/// request looks like: a function of the three strings alone, `None` when
/// the base does not parse as a URL.
pub uninterp spec fn withdraw_callback_url(
    callback: Seq<char>,
    k1: Seq<char>,
    pr: Seq<char>,
) -> Option<Seq<char>>;

/// Relies on `reqwest::Url`: parsing the callback base and appending the
/// percent-encoded query pairs "k1" and "pr" depend on the three strings
/// alone.
#[verifier::external_body]
fn build_callback_url_ext(callback: &str, k1: &str, pr: &str) -> (r: Option<String>)
    ensures
        r is Some <==> withdraw_callback_url(callback@, k1@, pr@) is Some,
        r is Some ==> r.unwrap()@ == withdraw_callback_url(callback@, k1@, pr@).unwrap(),
{
    let mut url = <reqwest::Url as std::str::FromStr>::from_str(callback).ok()?;
    url.query_pairs_mut().append_pair("k1", k1).append_pair("pr", pr);
    Some(url.to_string())
}

/// The URL the withdraw is confirmed at: the endpoint's callback with the
/// `k1` secret and the invoice appended.
pub fn build_withdraw_callback_url(
    req_data: &LnUrlWithdrawRequestData,
    invoice: &LNInvoice,
) -> (r: Result<String, LnUrlError>)
    ensures
        ({
            let url = withdraw_callback_url(req_data.callback@, req_data.k1@, invoice.bolt11@);
            &&& r is Ok <==> url is Some
            &&& r is Ok ==> r.unwrap()@ == url.unwrap()
            &&& r is Err ==> r.unwrap_err() is InvalidUri
        }),
{
    match build_callback_url_ext(
        req_data.callback.as_str(),
        req_data.k1.as_str(),
        invoice.bolt11.as_str(),
    ) {
        Some(u) => Ok(u),
        None => Err(LnUrlError::InvalidUri { err: String::from_str("invalid callback URL") }),
    }
}

/// Validates a withdraw against the endpoint's limits, before anything is
/// sent: the invoice must carry an amount within
/// `[min_withdrawable, max_withdrawable]`. On success returns the callback
/// URL the caller must GET; the decoded reply then goes to
/// [`resolve_lnurl_withdraw`].
pub fn validate_lnurl_withdraw(
    req_data: &LnUrlWithdrawRequestData,
    invoice: &LNInvoice,
) -> (r: Result<String, LnUrlError>)
    ensures
        ({
            match invoice.amount_msat {
                None => r is Err && r.unwrap_err() is Generic,
                Some(amount) => {
                    if amount < req_data.min_withdrawable || amount > req_data.max_withdrawable {
                        r is Err && r.unwrap_err() is Generic
                    } else {
                        let url = withdraw_callback_url(
                            req_data.callback@,
                            req_data.k1@,
                            invoice.bolt11@,
                        );
                        &&& r is Ok <==> url is Some
                        &&& r is Ok ==> r.unwrap()@ == url.unwrap()
                        &&& r is Err ==> r.unwrap_err() is InvalidUri
                    }
                },
            }
        }),
{
    let amount_msat = match invoice.amount_msat {
        Some(a) => a,
        None => {
            return Err(
                LnUrlError::Generic {
                    err: String::from_str("Expected invoice amount, but found none"),
                },
            );
        },
    };
    if amount_msat < req_data.min_withdrawable {
        return Err(
            LnUrlError::Generic {
                err: String::from_str(
                    "Amount is smaller than the minimum allowed by the LNURL-withdraw endpoint",
                ),
            },
        );
    }
    if amount_msat > req_data.max_withdrawable {
        return Err(
            LnUrlError::Generic {
                err: String::from_str(
                    "Amount is bigger than the maximum allowed by the LNURL-withdraw endpoint",
                ),
            },
        );
    }
    build_withdraw_callback_url(req_data, invoice)
}

/// Interprets the endpoint's decoded reply: an OK status grants the
/// withdraw against exactly the invoice that was sent; an error status is
/// passed through with the endpoint's reason.
pub fn resolve_lnurl_withdraw(callback_status: LnUrlCallbackStatus, invoice: LNInvoice) -> (r:
    LnUrlWithdrawResult)
    ensures
        callback_status is Success ==> (r matches LnUrlWithdrawResult::Success { data }
            && data.invoice == invoice),
        callback_status matches LnUrlCallbackStatus::ErrorStatus { data: d } ==> (
        r matches LnUrlWithdrawResult::ErrorStatus { data } && data == d),
{
    match callback_status {
        LnUrlCallbackStatus::Success => LnUrlWithdrawResult::Success {
            data: LnUrlWithdrawSuccessData { invoice },
        },
        LnUrlCallbackStatus::ErrorStatus { data } => LnUrlWithdrawResult::ErrorStatus { data },
    }
}

} // verus!
