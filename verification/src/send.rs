//! Validation of an outgoing payment request against the invoice it pays.

use vstd::prelude::*;
use crate::error::SendPaymentError;
use crate::invoice::{LNInvoice, parsed_invoice, parse_invoice};
use crate::models::SendPaymentRequest;
use crate::reconcile::opt0;

verus! {

/// Parses the invoice of a send request and checks that an amount is given
/// exactly when the invoice carries none: a zero invoice needs an explicit
/// amount, a non-zero invoice refuses one.
pub fn send_payment(req: SendPaymentRequest) -> (r: Result<LNInvoice, SendPaymentError>)
    ensures
        ({
            match parsed_invoice(req.bolt11@) {
                None => r is Err && r.unwrap_err() is ParseError,
                Some(inv) => {
                    let invoice_amount = opt0(inv.amount_msat);
                    let provided_amount = opt0(req.amount_msat);
                    if provided_amount == 0 && invoice_amount == 0 {
                        r is Err && r.unwrap_err() is InvalidAmount
                    } else if provided_amount > 0 && invoice_amount > 0 {
                        r is Err && r.unwrap_err() is InvalidAmount
                    } else {
                        r is Ok && r.unwrap() == inv
                    }
                },
            }
        }),
{
    let parsed_invoice = match parse_invoice(req.bolt11.as_str()) {
        Ok(p) => p,
        Err(_) => {
            return Err(
                SendPaymentError::ParseError { err: String::from_str("invalid bolt11 invoice") },
            );
        },
    };
    let invoice_amount_msat = parsed_invoice.amount_msat.unwrap_or(0);
    let provided_amount_msat = req.amount_msat.unwrap_or(0);

    if provided_amount_msat == 0 && invoice_amount_msat == 0 {
        return Err(
            SendPaymentError::InvalidAmount {
                err: String::from_str("Amount must be provided when paying a zero invoice"),
            },
        );
    }
    if provided_amount_msat > 0 && invoice_amount_msat > 0 {
        return Err(
            SendPaymentError::InvalidAmount {
                err: String::from_str(
                    "Amount should not be provided when paying a non zero invoice",
                ),
            },
        );
    }
    Ok(parsed_invoice)
}

} // verus!
