use vstd::prelude::*;

verus! {

/// Error raised by the payment-receiver pipeline.
#[derive(Clone, Debug, PartialEq, Eq)]
pub enum ReceivePaymentError {
    /// The requested amount is zero, or too small to cover the channel
    /// opening fee plus the mandatory margin.
    InvalidAmount { err: String },
    /// No open LSP channel was found, or a required fee schedule is missing.
    Generic { err: String },
    /// A malformed invoice or short-channel-id was encountered.
    ParseError { err: String },
}

/// Error raised when validating an outgoing payment request.
#[derive(Clone, Debug, PartialEq, Eq)]
pub enum SendPaymentError {
    /// The provided amount conflicts with the amount carried by the invoice.
    InvalidAmount { err: String },
    /// The invoice string could not be parsed.
    ParseError { err: String },
}

/// Error raised by the LNURL-withdraw flow before or while contacting the
/// withdraw endpoint.
#[derive(Clone, Debug, PartialEq, Eq)]
pub enum LnUrlError {
    /// A local validation failure: the endpoint was never contacted.
    Generic { err: String },
    /// The callback base URL could not be parsed.
    InvalidUri { err: String },
    /// The endpoint was unreachable or its reply was unparsable.
    ServiceConnectivity { err: String },
}

/// Error raised while reconciling the node state from upstream listings.
#[derive(Clone, Debug, PartialEq, Eq)]
pub enum NodeError {
    /// A listing entry could not be converted into the wallet's model.
    Generic { err: String },
}

/// Error raised by the SQL-backed payment store.
#[derive(Clone, Debug, PartialEq, Eq)]
pub enum PersistError {
    /// The underlying database reported a failure.
    Generic { err: String },
}

} // verus!
