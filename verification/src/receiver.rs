//! The builder-chain form of the payment-receiver pipeline: each stage
//! consumes the previous stage's record and yields what the caller must
//! hand to the external node API, then the next stage. Invoice creation and
//! signing happen between the stages, outside this crate.

use vstd::prelude::*;
use crate::error::ReceivePaymentError;
use crate::hexutil::{is_hex_seq, bytes_of_hex, hex_decode};
use crate::invoice::{LNInvoice, UnsignedInvoice, parsed_invoice, parse_invoice};
use crate::lsp::fee_computable;
use crate::models::{LspInformation, OpeningFeeParams, Peer, NodeState, ReceivePaymentRequest};
use crate::receive::{
    PreparedInvoiceContext, INVOICE_PAYMENT_FEE_EXPIRY_SECONDS, UNROUTABLE_SENTINEL_SCID,
    spec_request_expiry, spec_chosen_schedule, spec_first_lsp_peer, spec_first_opened_channel,
    spec_hint_id_string, spec_hint_needed, spec_rewrite_needed, is_lsp_hint,
};
use crate::scid::spec_parse_scid;

verus! {

/// Builds the parameter record for the external `create_invoice` call.
pub struct NodeApiRequestBuilder;

/// The parameters the caller must pass to the node's `create_invoice`.
#[derive(Clone, Debug, PartialEq)]
pub struct CreateInvoice {
    pub amount_msat: u64,
    pub description: String,
    pub preimage: Option<Vec<u8>>,
    pub use_description_hash: Option<bool>,
    pub expiry: Option<u32>,
    pub cltv: Option<u32>,
}

impl NodeApiRequestBuilder {
    /// Assembles the record for the node's `create_invoice` call.
    pub fn create_invoice(
        amount_msat: u64,
        description: String,
        preimage: Option<Vec<u8>>,
        use_description_hash: Option<bool>,
        expiry: Option<u32>,
        cltv: Option<u32>,
    ) -> (r: CreateInvoice)
        ensures
            r.amount_msat == amount_msat,
            r.description@ == description@,
            r.preimage == preimage,
            r.use_description_hash == use_description_hash,
            r.expiry == expiry,
            r.cltv == cltv,
    {
        CreateInvoice { amount_msat, description, preimage, use_description_hash, expiry, cltv }
    }
}

/// First stage of the builder chain: the fee negotiation.
pub struct PaymentReceiverBuilder;

/// What the first stage hands on: the `create_invoice` parameters for the
/// node, and the next builder.
#[derive(Debug)]
pub struct PostPaymentReceiverContext {
    pub create_invoice: CreateInvoice,
    pub next_builder: LspRoutingHintBuilder,
}

/// Second stage: decides the route-hint rewrite of the signed invoice.
#[derive(Debug)]
pub struct LspRoutingHintBuilder {
    pub req_amount_msat: u64,
    pub lsp_info: LspInformation,
    pub open_channel_needed: bool,
    pub short_channel_id: u64,
    pub destination_invoice_amount_msat: u64,
    pub channel_opening_fee_params: Option<OpeningFeeParams>,
    pub channel_fees_msat: Option<u64>,
}

impl PaymentReceiverBuilder {
    /// Runs the fee negotiation and prepares the `create_invoice` call.
    /// `peers` may be absent only when a channel open will be needed, that
    /// is when the node's inbound liquidity cannot cover the amount.
    pub fn prepare_invoice(
        req: ReceivePaymentRequest,
        lsp_info: LspInformation,
        node_state: &NodeState,
        peers: Option<Vec<Peer>>,
        now_epoch_seconds: u64,
    ) -> (r: Result<(CreateInvoice, LspRoutingHintBuilder), ReceivePaymentError>)
        requires
            now_epoch_seconds + spec_request_expiry(req) <= u64::MAX,
            forall|i: int|
                0 <= i < lsp_info.opening_fee_params_list@.len() ==> fee_computable(
                    #[trigger] lsp_info.opening_fee_params_list@[i],
                    req.amount_msat,
                ),
            req.opening_fee_params is Some ==> fee_computable(
                req.opening_fee_params.unwrap(),
                req.amount_msat,
            ),
            req.amount_msat > 0 && node_state.inbound_liquidity_msats >= req.amount_msat
                ==> peers is Some,
    ensures
        req.amount_msat == 0 ==> r is Err && r.unwrap_err() is InvalidAmount,
        r matches Ok((ci, b)) ==> ({
            &&& ci.amount_msat == b.destination_invoice_amount_msat
            &&& ci.description@ == req.description@
            &&& ci.preimage == req.preimage
            &&& ci.use_description_hash == req.use_description_hash
            &&& ci.expiry == Some(spec_request_expiry(req) as u32)
            &&& ci.cltv == Some((match req.cltv {
                Some(c) => c,
                None => 144u32,
            }))
            &&& b.req_amount_msat == req.amount_msat
            &&& b.lsp_info == lsp_info
            &&& b.open_channel_needed == (node_state.inbound_liquidity_msats < req.amount_msat)
        }),
        ({
            let open_needed = node_state.inbound_liquidity_msats < req.amount_msat;
            let deadline = now_epoch_seconds + spec_request_expiry(req);
            &&& (req.amount_msat > 0 && open_needed ==> (match spec_chosen_schedule(
                req,
                lsp_info,
                deadline,
            ) {
                None => r is Err && r.unwrap_err() is Generic,
                Some(f) => {
                    let fee = crate::lsp::spec_channel_fee_msat(f, req.amount_msat);
                    &&& (req.amount_msat < fee + 1000 ==> r is Err && r.unwrap_err()
                        is InvalidAmount)
                    &&& (req.amount_msat >= fee + 1000 ==> r is Ok && {
                        let b = r.unwrap().1;
                        &&& b.destination_invoice_amount_msat + fee == req.amount_msat
                        &&& b.channel_opening_fee_params == Some(f)
                        &&& b.channel_fees_msat == Some(fee as u64)
                        &&& b.short_channel_id == UNROUTABLE_SENTINEL_SCID
                    })
                },
            }))
            &&& (req.amount_msat > 0 && !open_needed ==> (match spec_first_lsp_peer(
                (match peers {
                    Some(p) => p@,
                    None => Seq::<Peer>::empty(),
                }),
                lsp_info.pubkey@,
            ) {
                None => r is Ok && r.unwrap().1.short_channel_id == UNROUTABLE_SENTINEL_SCID,
                Some(p) => match spec_first_opened_channel(p.channels@) {
                    None => r is Err && r.unwrap_err() is Generic,
                    Some(c) => match spec_parse_scid(spec_hint_id_string(c)) {
                        Some(v) => r is Ok && r.unwrap().1.short_channel_id == v,
                        None => r is Err && r.unwrap_err() is ParseError,
                    },
                },
            }))
            &&& (req.amount_msat > 0 && !open_needed && r is Ok ==> {
                let b = r.unwrap().1;
                &&& b.destination_invoice_amount_msat == req.amount_msat
                &&& b.channel_opening_fee_params is None
                &&& b.channel_fees_msat is None
            })
        }),
    {
        let expiry = match req.expiry {
            Some(e) => e,
            None => INVOICE_PAYMENT_FEE_EXPIRY_SECONDS,
        };
        let cltv = match req.cltv {
            Some(c) => c,
            None => 144,
        };
        let ReceivePaymentRequest {
            amount_msat,
            description,
            preimage,
            opening_fee_params,
            use_description_hash,
            expiry: _,
            cltv: _,
        } = req;
        let core_req = ReceivePaymentRequest {
            amount_msat,
            description: String::new(),
            preimage: None,
            opening_fee_params,
            use_description_hash: None,
            expiry: Some(expiry),
            cltv: Some(cltv),
        };
        let peers_vec: Vec<Peer> = match peers {
            Some(p) => p,
            None => Vec::new(),
        };
        let ctx = match crate::receive::prepare_invoice(
            core_req,
            &lsp_info,
            &peers_vec,
            node_state.inbound_liquidity_msats,
            now_epoch_seconds,
        ) {
            Ok(c) => c,
            Err(e) => {
                return Err(e);
            },
        };
        let create_invoice = CreateInvoice {
            amount_msat: ctx.destination_invoice_amount_msat,
            description,
            preimage,
            use_description_hash,
            expiry: Some(expiry),
            cltv: Some(cltv),
        };
        let next_builder = LspRoutingHintBuilder {
            req_amount_msat: amount_msat,
            lsp_info,
            open_channel_needed: ctx.open_channel_needed,
            short_channel_id: ctx.short_channel_id,
            destination_invoice_amount_msat: ctx.destination_invoice_amount_msat,
            channel_opening_fee_params: ctx.channel_opening_fee_params,
            channel_fees_msat: ctx.channel_fees_msat,
        };
        Ok((create_invoice, next_builder))
    }
}

/// What the second stage hands on: the rewritten invoice to re-sign, when
/// one is needed, and the final builder.
#[derive(Debug)]
pub struct PostLspRoutingHintContext {
    pub new_invoice_with_hint: Option<UnsignedInvoice>,
    pub next_builder: FinalizedInvoiceBuilder,
}

/// Third stage: builds the LSP registration payload from the final invoice.
#[derive(Debug)]
pub struct FinalizedInvoiceBuilder {
    pub req_amount_msat: u64,
    pub lsp_id: String,
    pub lsp_pubkey: Vec<u8>,
    pub open_channel_needed: bool,
    pub channel_opening_fee_params: Option<OpeningFeeParams>,
    pub destination_invoice_amount_msat: u64,
    pub channel_fees_msat: Option<u64>,
}

impl LspRoutingHintBuilder {
    /// Checks the signed invoice for an LSP route hint and rewrites it when
    /// a hint must be added or the visible amount restored; the rewritten
    /// invoice must then be re-signed by the node.
    pub fn check_routing_hint(self, invoice: &str) -> (r: Result<
        PostLspRoutingHintContext,
        ReceivePaymentError,
    >)
        ensures
            r is Ok <==> parsed_invoice(invoice@) is Some,
            r is Err ==> r.unwrap_err() is ParseError,
            r matches Ok(c) ==> ({
                let inv = parsed_invoice(invoice@).unwrap();
                let add = spec_hint_needed(inv, self.open_channel_needed, self.lsp_info.pubkey@);
                &&& (c.new_invoice_with_hint is Some <==> spec_rewrite_needed(
                    inv,
                    self.open_channel_needed,
                    self.lsp_info.pubkey@,
                    self.req_amount_msat,
                    self.destination_invoice_amount_msat,
                ))
                &&& (c.new_invoice_with_hint matches Some(u) ==> {
                    &&& u.source_bolt11@ == inv.bolt11@
                    &&& u.amount_msat == self.req_amount_msat
                    &&& (add ==> {
                        &&& u.routing_hints@.len() > 0
                        &&& is_lsp_hint(
                            u.routing_hints@.last(),
                            self.short_channel_id,
                            self.lsp_info,
                        )
                        &&& u.routing_hints@.drop_last() == (if self.open_channel_needed {
                            Seq::<crate::invoice::RouteHint>::empty()
                        } else {
                            inv.routing_hints@
                        })
                    })
                    &&& (!add ==> u.routing_hints@ == inv.routing_hints@)
                })
                &&& c.next_builder.req_amount_msat == self.req_amount_msat
                &&& c.next_builder.lsp_id@ == self.lsp_info.id@
                &&& c.next_builder.lsp_pubkey@ == self.lsp_info.lsp_pubkey@
                &&& c.next_builder.open_channel_needed == self.open_channel_needed
                &&& c.next_builder.channel_opening_fee_params
                    == self.channel_opening_fee_params
                &&& c.next_builder.destination_invoice_amount_msat
                    == self.destination_invoice_amount_msat
                &&& c.next_builder.channel_fees_msat == self.channel_fees_msat
            }),
    {
        let probe_req = ReceivePaymentRequest {
            amount_msat: self.req_amount_msat,
            description: String::new(),
            preimage: None,
            opening_fee_params: None,
            use_description_hash: None,
            expiry: None,
            cltv: None,
        };
        let probe_ctx = PreparedInvoiceContext {
            lsp_id: self.lsp_info.id.clone(),
            lsp_pubkey: self.lsp_info.pubkey.clone(),
            short_channel_id: self.short_channel_id,
            destination_invoice_amount_msat: self.destination_invoice_amount_msat,
            channel_opening_fee_params: None,
            open_channel_needed: self.open_channel_needed,
            channel_fees_msat: None,
        };
        let new_invoice_with_hint = match crate::receive::check_lsp_hints(
            String::from_str(invoice),
            &probe_req,
            &probe_ctx,
            &self.lsp_info,
        ) {
            Ok(o) => o,
            Err(e) => {
                return Err(e);
            },
        };
        let next_builder = FinalizedInvoiceBuilder {
            req_amount_msat: self.req_amount_msat,
            lsp_id: self.lsp_info.id,
            lsp_pubkey: self.lsp_info.lsp_pubkey,
            open_channel_needed: self.open_channel_needed,
            channel_opening_fee_params: self.channel_opening_fee_params,
            destination_invoice_amount_msat: self.destination_invoice_amount_msat,
            channel_fees_msat: self.channel_fees_msat,
        };
        Ok(PostLspRoutingHintContext { new_invoice_with_hint, next_builder })
    }
}

/// The registration payload sent to the LSP so it fronts the payment while
/// the channel confirms.
#[derive(Clone, Debug, PartialEq)]
pub struct LspRegisterPaymentParams {
    pub lsp_id: String,
    pub lsp_pubkey: Vec<u8>,
    pub payment_hash: Vec<u8>,
    pub payment_secret: Vec<u8>,
    pub destination: Vec<u8>,
    pub incoming_amount_msat: i64,
    pub outgoing_amount_msat: i64,
    pub opening_fee_params: OpeningFeeParams,
}

/// The outcome of the pipeline: the parsed final invoice, the fee figures,
/// and the LSP registration payload when a channel open is pending.
#[derive(Debug)]
pub struct FinalizedInvoiceContext {
    pub req_amount_msat: u64,
    pub ln_invoice: LNInvoice,
    pub opening_fee_params: Option<OpeningFeeParams>,
    pub opening_fee_msat: Option<u64>,
    pub register_payment: Option<LspRegisterPaymentParams>,
}

impl FinalizedInvoiceBuilder {
    /// Parses the final signed invoice and, when a channel open is pending,
    /// builds the payload that registers the payment with the LSP.
    pub fn finalize(self, invoice: &str) -> (r: Result<
        FinalizedInvoiceContext,
        ReceivePaymentError,
    >)
        requires
            self.req_amount_msat <= i64::MAX,
            self.destination_invoice_amount_msat <= i64::MAX,
        ensures
            r is Err ==> r.unwrap_err() is ParseError || r.unwrap_err() is Generic,
            ({
                match parsed_invoice(invoice@) {
                    None => r is Err && r.unwrap_err() is ParseError,
                    Some(inv) => {
                        if !self.open_channel_needed {
                            &&& r is Ok
                            &&& r.unwrap().register_payment is None
                            &&& r.unwrap().ln_invoice == inv
                            &&& r.unwrap().req_amount_msat == self.req_amount_msat
                            &&& r.unwrap().opening_fee_params
                                == self.channel_opening_fee_params
                            &&& r.unwrap().opening_fee_msat == self.channel_fees_msat
                        } else if self.channel_opening_fee_params is None {
                            r is Err && r.unwrap_err() is Generic
                        } else if !is_hex_seq(inv.payment_hash@) || !is_hex_seq(
                            inv.payee_pubkey@,
                        ) {
                            r is Err && r.unwrap_err() is Generic
                        } else {
                            &&& r is Ok
                            &&& r.unwrap().ln_invoice == inv
                            &&& r.unwrap().req_amount_msat == self.req_amount_msat
                            &&& r.unwrap().opening_fee_params
                                == self.channel_opening_fee_params
                            &&& r.unwrap().opening_fee_msat == self.channel_fees_msat
                            &&& r.unwrap().register_payment matches Some(rp) && {
                                &&& rp.lsp_id@ == self.lsp_id@
                                &&& rp.lsp_pubkey@ == self.lsp_pubkey@
                                &&& rp.payment_hash@ == bytes_of_hex(inv.payment_hash@)
                                &&& rp.payment_secret@ == inv.payment_secret@
                                &&& rp.destination@ == bytes_of_hex(inv.payee_pubkey@)
                                &&& rp.incoming_amount_msat == self.req_amount_msat as i64
                                &&& rp.outgoing_amount_msat
                                    == self.destination_invoice_amount_msat as i64
                                &&& Some(rp.opening_fee_params)
                                    == self.channel_opening_fee_params
                            }
                        }
                    },
                }
            }),
    {
        let parsed_invoice = match parse_invoice(invoice) {
            Ok(p) => p,
            Err(e) => {
                return Err(e);
            },
        };
        let mut register_payment: Option<LspRegisterPaymentParams> = None;
        if self.open_channel_needed {
            let ofp = match &self.channel_opening_fee_params {
                Some(f) => f.clone(),
                None => {
                    return Err(
                        ReceivePaymentError::Generic {
                            err: String::from_str(
                                "We need to open a channel, but no channel opening fee params found",
                            ),
                        },
                    );
                },
            };
            let payment_hash = match hex_decode(parsed_invoice.payment_hash.as_str()) {
                Some(h) => h,
                None => {
                    return Err(
                        ReceivePaymentError::Generic {
                            err: String::from_str("Failed to decode hex payment hash"),
                        },
                    );
                },
            };
            let destination = match hex_decode(parsed_invoice.payee_pubkey.as_str()) {
                Some(d) => d,
                None => {
                    return Err(
                        ReceivePaymentError::Generic {
                            err: String::from_str("Failed to decode hex payee pubkey"),
                        },
                    );
                },
            };
            register_payment = Some(
                LspRegisterPaymentParams {
                    lsp_id: self.lsp_id,
                    lsp_pubkey: self.lsp_pubkey,
                    payment_hash,
                    payment_secret: parsed_invoice.payment_secret.clone(),
                    destination,
                    incoming_amount_msat: self.req_amount_msat as i64,
                    outgoing_amount_msat: self.destination_invoice_amount_msat as i64,
                    opening_fee_params: ofp,
                },
            );
        }
        Ok(
            FinalizedInvoiceContext {
                req_amount_msat: self.req_amount_msat,
                ln_invoice: parsed_invoice,
                opening_fee_params: self.channel_opening_fee_params,
                opening_fee_msat: self.channel_fees_msat,
                register_payment,
            },
        )
    }
}

/// The payload of the LSP's payment-registration call.
#[derive(Clone, Debug, PartialEq)]
pub struct PaymentInformation {
    pub payment_hash: Vec<u8>,
    pub payment_secret: Vec<u8>,
    pub destination: Vec<u8>,
    pub incoming_amount_msat: i64,
    pub outgoing_amount_msat: i64,
    pub tag: String,
    pub opening_fee_params: Option<OpeningFeeParams>,
}

/// The JSON object `{"apiKeyHash": h}` rendered as text: a function of the
/// hash text alone.
pub uninterp spec fn api_key_hash_tag(h: Seq<char>) -> Seq<char>;

/// Relies on `serde_json`: rendering the one-field object
/// `{"apiKeyHash": h}` depends on the text of `h` alone.
#[verifier::external_body]
fn api_key_hash_tag_ext(h: &str) -> (r: String)
    ensures
        r@ == api_key_hash_tag(h@),
{
    let mut m = serde_json::Map::new();
    m.insert("apiKeyHash".to_string(), serde_json::Value::String(h.to_string()));
    serde_json::Value::Object(m).to_string()
}

impl LspRegisterPaymentParams {
    /// Converts the registration payload into the wire record the LSP
    /// consumes, tagging it with the caller's hashed API key.
    pub fn into_payment_information(self, api_key_hash: &str) -> (r: PaymentInformation)
        ensures
            r.payment_hash@ == self.payment_hash@,
            r.payment_secret@ == self.payment_secret@,
            r.destination@ == self.destination@,
            r.incoming_amount_msat == self.incoming_amount_msat,
            r.outgoing_amount_msat == self.outgoing_amount_msat,
            r.tag@ == api_key_hash_tag(api_key_hash@),
            r.opening_fee_params == Some(self.opening_fee_params),
    {
        PaymentInformation {
            payment_hash: self.payment_hash,
            payment_secret: self.payment_secret,
            destination: self.destination,
            incoming_amount_msat: self.incoming_amount_msat,
            outgoing_amount_msat: self.outgoing_amount_msat,
            tag: api_key_hash_tag_ext(api_key_hash),
            opening_fee_params: Some(self.opening_fee_params),
        }
    }
}

} // verus!
