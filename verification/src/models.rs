//! Shared data model of the wallet core: channels, payments, node state,
//! requests and LSP information.

use vstd::prelude::*;

verus! {

/// The lifecycle state of a Lightning channel.
#[derive(Clone, Copy, Debug, PartialEq, Eq, Structural)]
pub enum ChannelState {
    PendingOpen,
    Opened,
    PendingClose,
    Closed,
}

/// A Lightning channel as seen by the wallet.
#[derive(Clone, Debug, PartialEq)]
pub struct Channel {
    pub state: ChannelState,
    pub spendable_msat: u64,
    pub receivable_msat: u64,
    /// Compact textual form "block x transaction x output".
    pub short_channel_id: String,
    /// Peer-assigned alias for a channel not yet confirmed on chain.
    pub alias_remote: Option<String>,
    /// Hex funding transaction id, when known.
    pub funding_txid: Option<String>,
}

/// A peer node together with the channels shared with it.
#[derive(Clone, Debug, PartialEq)]
pub struct Peer {
    /// Raw public key of the peer.
    pub id: Vec<u8>,
    pub connected: bool,
    pub channels: Vec<Channel>,
}

/// Whether a payment was sent, received, or represents a closed channel.
#[derive(Clone, Copy, Debug, PartialEq, Eq, Structural)]
pub enum PaymentType {
    Sent,
    Received,
    ClosedChannel,
}

/// The settlement status of a payment.
#[derive(Clone, Copy, Debug, PartialEq, Eq, Structural)]
pub enum PaymentStatus {
    Pending,
    Complete,
    Failed,
}

/// An action delivered by an LNURL-pay endpoint after a successful payment.
#[derive(Clone, Debug, PartialEq)]
pub enum SuccessActionProcessed {
    Message { data: MessageSuccessActionData },
    Url { data: UrlSuccessActionData },
}

#[derive(Clone, Debug, PartialEq)]
pub struct MessageSuccessActionData {
    pub message: String,
}

#[derive(Clone, Debug, PartialEq)]
pub struct UrlSuccessActionData {
    pub description: String,
    pub url: String,
}

/// The status of an on-chain swap.
#[derive(Clone, Copy, Debug, PartialEq, Eq, Structural)]
pub enum SwapStatus {
    Initial,
    Expired,
}

/// An on-chain swap tracked alongside the payment that redeems it.
#[derive(Clone, Debug, PartialEq)]
pub struct SwapInfo {
    pub bitcoin_address: String,
    pub created_at: i64,
    pub lock_height: i64,
    pub payment_hash: Vec<u8>,
    pub preimage: Vec<u8>,
    pub private_key: Vec<u8>,
    pub public_key: Vec<u8>,
    pub swapper_public_key: Vec<u8>,
    pub script: Vec<u8>,
    pub bolt11: Option<String>,
    pub paid_sats: u64,
    pub confirmed_sats: u64,
    pub unconfirmed_sats: u64,
    pub status: SwapStatus,
    pub refund_tx_ids: Vec<String>,
    pub unconfirmed_tx_ids: Vec<String>,
    pub confirmed_tx_ids: Vec<String>,
    pub min_allowed_deposit: i64,
    pub max_allowed_deposit: i64,
    pub last_redeem_error: Option<String>,
    pub channel_opening_fees: Option<OpeningFeeParams>,
}

/// Details of a Lightning payment.
#[derive(Clone, Debug, PartialEq)]
pub struct LnPaymentDetails {
    pub payment_hash: String,
    pub label: String,
    pub destination_pubkey: String,
    pub payment_preimage: String,
    pub keysend: bool,
    pub bolt11: String,
    pub lnurl_success_action: Option<SuccessActionProcessed>,
    pub lnurl_metadata: Option<String>,
    pub ln_address: Option<String>,
    pub lnurl_withdraw_endpoint: Option<String>,
    pub swap_info: Option<SwapInfo>,
}

/// Details of a payment representing a closed channel.
#[derive(Clone, Debug, PartialEq)]
pub struct ClosedChannelPaymentDetails {
    pub short_channel_id: String,
    pub state: ChannelState,
    pub funding_txid: String,
}

/// Protocol-specific details of a payment.
#[derive(Clone, Debug, PartialEq)]
pub enum PaymentDetails {
    Ln { data: LnPaymentDetails },
    ClosedChannel { data: ClosedChannelPaymentDetails },
}

/// One entry of the wallet's payment history. Its identity is the hex
/// payment hash.
#[derive(Clone, Debug, PartialEq)]
pub struct Payment {
    pub id: String,
    pub payment_type: PaymentType,
    pub payment_time: i64,
    pub amount_msat: u64,
    pub fee_msat: u64,
    pub status: PaymentStatus,
    pub description: Option<String>,
    pub details: PaymentDetails,
}

/// An unspent on-chain output owned by the node.
#[derive(Clone, Debug, PartialEq)]
pub struct UnspentTransactionOutput {
    pub txid: Vec<u8>,
    pub outnum: u32,
    pub amount_millisatoshi: u64,
    pub address: String,
    pub reserved: bool,
}

/// The wallet's aggregate balances and limits, recomputed wholesale from the
/// node's listings on every reconciliation.
#[derive(Clone, Debug, PartialEq)]
pub struct NodeState {
    /// Hex public key of the node.
    pub id: String,
    pub block_height: u32,
    pub channels_balance_msat: u64,
    pub onchain_balance_msat: u64,
    pub utxos: Vec<UnspentTransactionOutput>,
    pub max_payable_msat: u64,
    pub max_receivable_msat: u64,
    pub max_single_payment_amount_msat: u64,
    pub max_chan_reserve_msats: u64,
    /// Hex public keys of the currently connected peers.
    pub connected_peers: Vec<String>,
    /// The largest receivable amount over a single opened channel.
    pub inbound_liquidity_msats: u64,
}

/// A fee schedule offered by the LSP for opening a channel, bound by an
/// opaque signed promise; the core never recomputes or checks the promise.
#[derive(Debug, PartialEq)]
pub struct OpeningFeeParams {
    /// Least fee the LSP accepts for a channel open.
    pub min_msat: u64,
    /// Proportional fee in parts per million of the requested amount.
    pub proportional: u32,
    /// Expiry of this schedule, an RFC 3339 timestamp in UTC.
    pub valid_until: String,
    pub max_idle_time: u32,
    pub max_client_to_self_delay: u32,
    pub promise: String,
}

/// What the wallet knows about its Liquidity Service Provider.
#[derive(Clone, Debug, PartialEq)]
pub struct LspInformation {
    pub id: String,
    /// Hex public key of the LSP node, as it appears in route hints.
    pub pubkey: String,
    /// Raw public key of the LSP, as sent in registration payloads.
    pub lsp_pubkey: Vec<u8>,
    /// Flat routing fee of the LSP in millisatoshis.
    pub base_fee_msat: u32,
    /// Proportional routing fee in millionths of the routed amount.
    pub fee_rate_ppm: u32,
    /// CLTV delta the LSP requires for routed payments.
    pub time_lock_delta: u32,
    /// Least HTLC the LSP forwards, in millisatoshis.
    pub min_htlc_msat: u64,
    /// Channel-open fee schedules offered by the LSP, cheapest first.
    pub opening_fee_params_list: Vec<OpeningFeeParams>,
}

/// A request to issue an invoice for receiving a payment.
#[derive(Clone, Debug, PartialEq)]
pub struct ReceivePaymentRequest {
    pub amount_msat: u64,
    pub description: String,
    pub preimage: Option<Vec<u8>>,
    /// Caller-supplied fee schedule overriding the LSP's cheapest one.
    pub opening_fee_params: Option<OpeningFeeParams>,
    pub use_description_hash: Option<bool>,
    /// Invoice expiry in seconds.
    pub expiry: Option<u32>,
    pub cltv: Option<u32>,
}

/// A request to pay an invoice.
#[derive(Clone, Debug, PartialEq)]
pub struct SendPaymentRequest {
    pub bolt11: String,
    /// Amount to pay, required if and only if the invoice carries none.
    pub amount_msat: Option<u64>,
}

/// The data of an LNURL-withdraw offer made by an endpoint.
#[derive(Clone, Debug, PartialEq)]
pub struct LnUrlWithdrawRequestData {
    pub callback: String,
    pub k1: String,
    pub default_description: String,
    pub min_withdrawable: u64,
    pub max_withdrawable: u64,
}

/// The reason an LNURL endpoint reported for refusing a request.
#[derive(Clone, Debug, PartialEq)]
pub struct LnUrlErrorData {
    pub reason: String,
}

/// The decoded JSON status an LNURL endpoint replies with.
#[derive(Clone, Debug, PartialEq)]
pub enum LnUrlCallbackStatus {
    Success,
    ErrorStatus { data: LnUrlErrorData },
}

/// The invoice the withdraw amount was granted against.
#[derive(Clone, Debug, PartialEq)]
pub struct LnUrlWithdrawSuccessData {
    pub invoice: crate::invoice::LNInvoice,
}

/// Outcome of an LNURL-withdraw exchange with the endpoint.
#[derive(Clone, Debug, PartialEq)]
pub enum LnUrlWithdrawResult {
    Success { data: LnUrlWithdrawSuccessData },
    ErrorStatus { data: LnUrlErrorData },
}

} // verus!
