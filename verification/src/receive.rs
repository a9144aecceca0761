//! The payment-receiver pipeline: deciding whether a just-in-time channel
//! open is needed, computing the fee to deduct, rewriting the invoice's
//! route hints, and building the LSP registration payload. Invoice creation
//! and signing happen outside, between these stages.

use vstd::prelude::*;
use crate::error::ReceivePaymentError;
use crate::hexutil::{hex_of, is_hex_seq, bytes_of_hex, hex_encode, hex_decode};
use crate::invoice::{
    LNInvoice, RouteHint, RouteHintHop, UnsignedInvoice, parsed_invoice, parse_invoice,
    has_hint_for, invoice_has_hint_for, spec_rewritten_hints, add_lsp_routing_hints,
};
use crate::lsp::{spec_channel_fee_msat, fee_computable, spec_cheapest_valid_schedule};
use crate::models::{Channel, ChannelState, LspInformation, OpeningFeeParams, Peer,
    ReceivePaymentRequest};
use crate::scid::spec_parse_scid;

verus! {

/// Default invoice expiry when the request names none: one hour.
pub const INVOICE_PAYMENT_FEE_EXPIRY_SECONDS: u32 = 60 * 60;

/// The packed form of the textual short-channel-id "1x0x0": the unroutable
/// placeholder used when no LSP channel is found and none needs opening.
pub const UNROUTABLE_SENTINEL_SCID: u64 = 1u64 << 40;

/// What the fee negotiation decided; consumed by the later pipeline stages.
#[derive(Clone, Debug, PartialEq)]
pub struct PreparedInvoiceContext {
    pub lsp_id: String,
    /// Hex public key of the LSP.
    pub lsp_pubkey: String,
    pub short_channel_id: u64,
    /// Amount of the invoice the node creates: the requested amount less
    /// the channel-opening fee, when one is deducted.
    pub destination_invoice_amount_msat: u64,
    pub channel_opening_fee_params: Option<OpeningFeeParams>,
    pub open_channel_needed: bool,
    pub channel_fees_msat: Option<u64>,
}

/// The invoice expiry the request asks for, or the default.
pub open spec fn spec_request_expiry(req: ReceivePaymentRequest) -> int {
    match req.expiry {
        Some(e) => e as int,
        None => INVOICE_PAYMENT_FEE_EXPIRY_SECONDS as int,
    }
}

/// The fee schedule a channel open would use: the caller's override when
/// present, else the LSP's cheapest schedule valid until `deadline`.
pub open spec fn spec_chosen_schedule(
    req: ReceivePaymentRequest,
    lsp_info: LspInformation,
    deadline: int,
) -> Option<OpeningFeeParams> {
    match req.opening_fee_params {
        Some(p) => Some(p),
        None => spec_cheapest_valid_schedule(lsp_info.opening_fee_params_list@, deadline),
    }
}

/// The peer is the LSP and shares at least one channel with us.
pub open spec fn peer_matches_lsp(p: Peer, lsp_pubkey: Seq<char>) -> bool {
    hex_of(p.id@) == lsp_pubkey && p.channels@.len() > 0
}

/// The first peer in list order that is the LSP with channels.
pub open spec fn spec_first_lsp_peer(peers: Seq<Peer>, lsp_pubkey: Seq<char>) -> Option<Peer>
    decreases peers.len(),
{
    if peers.len() == 0 {
        None
    } else if peer_matches_lsp(peers[0], lsp_pubkey) {
        Some(peers[0])
    } else {
        spec_first_lsp_peer(peers.drop_first(), lsp_pubkey)
    }
}

/// The first channel in the fully-open state, in list order.
pub open spec fn spec_first_opened_channel(channels: Seq<Channel>) -> Option<Channel>
    decreases channels.len(),
{
    if channels.len() == 0 {
        None
    } else if channels[0].state is Opened {
        Some(channels[0])
    } else {
        spec_first_opened_channel(channels.drop_first())
    }
}

/// The textual id a channel is hinted under: its remote alias when present,
/// else its real short-channel-id.
pub open spec fn spec_hint_id_string(c: Channel) -> Seq<char> {
    match c.alias_remote {
        Some(a) => a@,
        None => c.short_channel_id@,
    }
}

fn find_lsp_peer_index(peers: &Vec<Peer>, pubkey: &String) -> (r: Option<usize>)
    ensures
        match r {
            Some(i) => i < peers@.len() && spec_first_lsp_peer(peers@, pubkey@) == Some(
                peers@[i as int],
            ),
            None => spec_first_lsp_peer(peers@, pubkey@) is None,
        },
{
    proof {
        assert(peers@.skip(0) =~= peers@);
    }
    let mut i: usize = 0;
    while i < peers.len()
        invariant
            i <= peers@.len(),
            spec_first_lsp_peer(peers@, pubkey@) == spec_first_lsp_peer(
                peers@.skip(i as int),
                pubkey@,
            ),
        decreases peers@.len() - i,
    {
        proof {
            assert(peers@.skip(i as int)[0] == peers@[i as int]);
            assert(peers@.skip(i as int).drop_first() =~= peers@.skip(i + 1));
        }
        let peer_id_hex = hex_encode(peers[i].id.as_slice());
        if peer_id_hex == *pubkey && peers[i].channels.len() > 0 {
            return Some(i);
        }
        i = i + 1;
    }
    proof {
        assert(peers@.skip(peers@.len() as int) =~= Seq::<Peer>::empty());
    }
    None
}

fn find_first_opened_index(channels: &Vec<Channel>) -> (r: Option<usize>)
    ensures
        match r {
            Some(j) => j < channels@.len() && spec_first_opened_channel(channels@) == Some(
                channels@[j as int],
            ),
            None => spec_first_opened_channel(channels@) is None,
        },
{
    proof {
        assert(channels@.skip(0) =~= channels@);
    }
    let mut j: usize = 0;
    while j < channels.len()
        invariant
            j <= channels@.len(),
            spec_first_opened_channel(channels@) == spec_first_opened_channel(
                channels@.skip(j as int),
            ),
        decreases channels@.len() - j,
    {
        proof {
            assert(channels@.skip(j as int)[0] == channels@[j as int]);
            assert(channels@.skip(j as int).drop_first() =~= channels@.skip(j + 1));
        }
        if channels[j].state == ChannelState::Opened {
            return Some(j);
        }
        j = j + 1;
    }
    proof {
        assert(channels@.skip(channels@.len() as int) =~= Seq::<Channel>::empty());
    }
    None
}

/// Decides whether receiving `req.amount_msat` needs a just-in-time channel
/// open, computes the fee to deduct, and finds the short-channel-id for the
/// route hint. `now_epoch_seconds` is the current Unix time, used only to
/// pick a fee schedule that outlives the invoice.
pub fn prepare_invoice(
    req: ReceivePaymentRequest,
    lsp_info: &LspInformation,
    peers: &Vec<Peer>,
    inbound_liquidity_msats: u64,
    now_epoch_seconds: u64,
) -> (r: Result<PreparedInvoiceContext, ReceivePaymentError>)
    requires
        now_epoch_seconds + spec_request_expiry(req) <= u64::MAX,
        forall|i: int|
            0 <= i < lsp_info.opening_fee_params_list@.len() ==> fee_computable(
                #[trigger] lsp_info.opening_fee_params_list@[i],
                req.amount_msat,
            ),
        req.opening_fee_params is Some ==> fee_computable(
            req.opening_fee_params.unwrap(),
            req.amount_msat,
        ),
    ensures
        req.amount_msat == 0 ==> r is Err && r.unwrap_err() is InvalidAmount,
        ({
            let open_needed = inbound_liquidity_msats < req.amount_msat;
            let deadline = now_epoch_seconds + spec_request_expiry(req);
            &&& (req.amount_msat > 0 && open_needed ==> (match spec_chosen_schedule(
                req,
                *lsp_info,
                deadline,
            ) {
                None => r is Err && r.unwrap_err() is Generic,
                Some(f) => {
                    let fee = spec_channel_fee_msat(f, req.amount_msat);
                    &&& (req.amount_msat < fee + 1000 ==> r is Err && r.unwrap_err()
                        is InvalidAmount)
                    &&& (req.amount_msat >= fee + 1000 ==> r is Ok && {
                        let ctx = r.unwrap();
                        &&& ctx.open_channel_needed
                        &&& ctx.destination_invoice_amount_msat + fee == req.amount_msat
                        &&& ctx.channel_opening_fee_params == Some(f)
                        &&& ctx.channel_fees_msat == Some(fee as u64)
                        &&& ctx.short_channel_id == UNROUTABLE_SENTINEL_SCID
                        &&& ctx.lsp_id@ == lsp_info.id@
                        &&& ctx.lsp_pubkey@ == lsp_info.pubkey@
                    })
                },
            }))
            &&& (req.amount_msat > 0 && !open_needed ==> (match spec_first_lsp_peer(
                peers@,
                lsp_info.pubkey@,
            ) {
                None => r is Ok && r.unwrap().short_channel_id == UNROUTABLE_SENTINEL_SCID,
                Some(p) => match spec_first_opened_channel(p.channels@) {
                    None => r is Err && r.unwrap_err() is Generic,
                    Some(c) => match spec_parse_scid(spec_hint_id_string(c)) {
                        Some(v) => r is Ok && r.unwrap().short_channel_id == v,
                        None => r is Err && r.unwrap_err() is ParseError,
                    },
                },
            }))
            &&& (req.amount_msat > 0 && !open_needed && r is Ok ==> {
                let ctx = r.unwrap();
                &&& !ctx.open_channel_needed
                &&& ctx.destination_invoice_amount_msat == req.amount_msat
                &&& ctx.channel_opening_fee_params is None
                &&& ctx.channel_fees_msat is None
                &&& ctx.lsp_id@ == lsp_info.id@
                &&& ctx.lsp_pubkey@ == lsp_info.pubkey@
            })
        }),
{
    let expiry = match req.expiry {
        Some(e) => e,
        None => INVOICE_PAYMENT_FEE_EXPIRY_SECONDS,
    };
    if req.amount_msat == 0 {
        return Err(
            ReceivePaymentError::InvalidAmount {
                err: String::from_str("Receive amount must be more than 0"),
            },
        );
    }
    let mut short_channel_id: u64 = UNROUTABLE_SENTINEL_SCID;
    let mut destination_invoice_amount_msat: u64 = req.amount_msat;
    let mut channel_opening_fee_params: Option<OpeningFeeParams> = None;
    let mut channel_fees_msat: Option<u64> = None;

    let open_channel_needed = inbound_liquidity_msats < req.amount_msat;
    if open_channel_needed {
        let ofp: OpeningFeeParams = match req.opening_fee_params {
            Some(fee_params) => fee_params,
            None => {
                match lsp_info.cheapest_open_channel_fee(expiry, now_epoch_seconds) {
                    Ok(f) => {
                        proof {
                            let list = lsp_info.opening_fee_params_list@;
                            let deadline = now_epoch_seconds + spec_request_expiry(req);
                            let w = choose|w: int|
                                crate::lsp::is_first_valid_schedule(list, deadline, w);
                            assert(fee_computable(list[w], req.amount_msat));
                        }
                        f.clone()
                    },
                    Err(e) => {
                        return Err(e);
                    },
                }
            },
        };
        let fees = ofp.get_channel_fees_msat_for(req.amount_msat);
        channel_opening_fee_params = Some(ofp);
        channel_fees_msat = Some(fees);
        if req.amount_msat < 1000 || req.amount_msat - 1000 < fees {
            return Err(
                ReceivePaymentError::InvalidAmount {
                    err: String::from_str(
                        "Amount should be more than the minimum fees, but is less",
                    ),
                },
            );
        }
        destination_invoice_amount_msat = req.amount_msat - fees;
    } else {
        match find_lsp_peer_index(peers, &lsp_info.pubkey) {
            None => (),
            Some(i) => {
                let channels = &peers[i].channels;
                let j = match find_first_opened_index(channels) {
                    Some(j) => j,
                    None => {
                        return Err(
                            ReceivePaymentError::Generic {
                                err: String::from_str("No open channel found"),
                            },
                        );
                    },
                };
                let active_channel = &channels[j];
                let hint = match &active_channel.alias_remote {
                    Some(a) => a.as_str(),
                    None => active_channel.short_channel_id.as_str(),
                };
                short_channel_id = match crate::scid::parse_short_channel_id(hint) {
                    Ok(v) => v,
                    Err(e) => {
                        return Err(e);
                    },
                };
            },
        }
    }

    Ok(
        PreparedInvoiceContext {
            lsp_id: lsp_info.id.clone(),
            lsp_pubkey: lsp_info.pubkey.clone(),
            short_channel_id,
            destination_invoice_amount_msat,
            channel_opening_fee_params,
            open_channel_needed,
            channel_fees_msat,
        },
    )
}


/// The single hop the LSP hint is built from: the LSP as source, the
/// negotiated short-channel-id, the LSP's routing fees and CLTV delta, its
/// minimum HTLC, and no maximum.
pub open spec fn is_lsp_hop(
    h: RouteHintHop,
    scid: u64,
    lsp_info: LspInformation,
) -> bool {
    &&& h.src_node_id@ == lsp_info.pubkey@
    &&& h.short_channel_id == scid
    &&& h.fees_base_msat == lsp_info.base_fee_msat
    &&& h.fees_proportional_millionths == lsp_info.fee_rate_ppm
    &&& h.cltv_expiry_delta == lsp_info.time_lock_delta as u64
    &&& h.htlc_minimum_msat == Some(lsp_info.min_htlc_msat)
    &&& h.htlc_maximum_msat is None
}

/// A one-hop route hint through the LSP.
pub open spec fn is_lsp_hint(t: RouteHint, scid: u64, lsp_info: LspInformation) -> bool {
    t.hops@.len() == 1 && is_lsp_hop(t.hops@[0], scid, lsp_info)
}

/// An LSP hint must be added: the invoice carries none, or the payer must
/// route through a channel that is yet to be opened.
pub open spec fn spec_hint_needed(
    inv: LNInvoice,
    open_channel_needed: bool,
    lsp_pubkey: Seq<char>,
) -> bool {
    !has_hint_for(inv.routing_hints@, lsp_pubkey) || open_channel_needed
}

/// The invoice must be rewritten: a hint is added, or the requested amount
/// differs from the amount the invoice was created over.
pub open spec fn spec_rewrite_needed(
    inv: LNInvoice,
    open_channel_needed: bool,
    lsp_pubkey: Seq<char>,
    req_amount_msat: u64,
    destination_amount_msat: u64,
) -> bool {
    spec_hint_needed(inv, open_channel_needed, lsp_pubkey) || req_amount_msat
        != destination_amount_msat
}

/// Rewrites a freshly signed invoice so the payer sees the full requested
/// amount and can route through the LSP: returns the modified, unsigned
/// invoice, or `None` when the signed invoice already serves as is.
pub fn check_lsp_hints(
    invoice: String,
    req: &ReceivePaymentRequest,
    ctx: &PreparedInvoiceContext,
    lsp_info: &LspInformation,
) -> (r: Result<Option<UnsignedInvoice>, ReceivePaymentError>)
    ensures
        r is Ok <==> parsed_invoice(invoice@) is Some,
        r is Err ==> r.unwrap_err() is ParseError,
        r is Ok ==> ({
            let inv = parsed_invoice(invoice@).unwrap();
            let add = spec_hint_needed(inv, ctx.open_channel_needed, lsp_info.pubkey@);
            &&& (r.unwrap() is Some <==> spec_rewrite_needed(
                inv,
                ctx.open_channel_needed,
                lsp_info.pubkey@,
                req.amount_msat,
                ctx.destination_invoice_amount_msat,
            ))
            &&& (r.unwrap() matches Some(u) ==> {
                &&& u.source_bolt11@ == inv.bolt11@
                &&& u.amount_msat == req.amount_msat
                &&& (add ==> {
                    &&& u.routing_hints@.len() > 0
                    &&& is_lsp_hint(u.routing_hints@.last(), ctx.short_channel_id, *lsp_info)
                    &&& u.routing_hints@.drop_last() == (if ctx.open_channel_needed {
                        Seq::<RouteHint>::empty()
                    } else {
                        inv.routing_hints@
                    })
                })
                &&& (!add ==> u.routing_hints@ == inv.routing_hints@)
            })
        }),
{
    let parsed = match parse_invoice(invoice.as_str()) {
        Ok(p) => p,
        Err(e) => {
            return Err(e);
        },
    };
    let has_lsp_hint = invoice_has_hint_for(&parsed, &lsp_info.pubkey);

    let mut lsp_hint: Option<RouteHint> = None;
    if !has_lsp_hint || ctx.open_channel_needed {
        let lsp_hop = RouteHintHop {
            src_node_id: lsp_info.pubkey.clone(),
            short_channel_id: ctx.short_channel_id,
            fees_base_msat: lsp_info.base_fee_msat,
            fees_proportional_millionths: lsp_info.fee_rate_ppm,
            cltv_expiry_delta: lsp_info.time_lock_delta as u64,
            htlc_minimum_msat: Some(lsp_info.min_htlc_msat),
            htlc_maximum_msat: None,
        };
        let mut hops: Vec<RouteHintHop> = Vec::new();
        hops.push(lsp_hop);
        lsp_hint = Some(RouteHint { hops });
    }

    if lsp_hint.is_some() || req.amount_msat != ctx.destination_invoice_amount_msat {
        let merge = !ctx.open_channel_needed;
        let rewritten = add_lsp_routing_hints(parsed, merge, lsp_hint, req.amount_msat);
        proof {
            let inv = parsed_invoice(invoice@).unwrap();
            if spec_hint_needed(inv, ctx.open_channel_needed, lsp_info.pubkey@) {
                let hs = rewritten.routing_hints@;
                assert(hs.drop_last() =~= (if ctx.open_channel_needed {
                    Seq::<RouteHint>::empty()
                } else {
                    inv.routing_hints@
                }));
            }
        }
        Ok(Some(rewritten))
    } else {
        Ok(None)
    }
}

/// Rewriting is idempotent: an invoice that already carries the LSP hint
/// and the full requested amount, with no channel open pending, is left
/// unchanged — on this call and on any repetition of it.
pub proof fn lemma_hint_injection_idempotent(
    inv: LNInvoice,
    lsp_pubkey: Seq<char>,
    req_amount_msat: u64,
    destination_amount_msat: u64,
)
    requires
        has_hint_for(inv.routing_hints@, lsp_pubkey),
        req_amount_msat == destination_amount_msat,
    ensures
        !spec_rewrite_needed(inv, false, lsp_pubkey, req_amount_msat, destination_amount_msat),
{
}

/// The payload handed to the LSP when a payment must be registered ahead of
/// a channel open; the registration call itself is made outside this crate.
#[derive(Clone, Debug, PartialEq)]
pub struct PaymentInfo {
    pub payment_hash: Vec<u8>,
    pub payment_secret: Vec<u8>,
    pub destination: Vec<u8>,
    pub incoming_amount_msat: i64,
    pub outgoing_amount_msat: i64,
    pub opening_fee_params: Option<OpeningFeeParams>,
}

/// Builds the LSP pre-registration payload for the final signed invoice:
/// present exactly when a channel open is needed. The incoming amount is
/// what the payer sends, the outgoing amount what the invoice asks for.
pub fn check_payment_registration(
    invoice: &str,
    req: &ReceivePaymentRequest,
    ctx: &PreparedInvoiceContext,
) -> (r: Result<Option<PaymentInfo>, ReceivePaymentError>)
    requires
        req.amount_msat <= i64::MAX,
        ctx.destination_invoice_amount_msat <= i64::MAX,
    ensures
        !ctx.open_channel_needed ==> {
            &&& (r is Ok <==> parsed_invoice(invoice@) is Some)
            &&& (r is Ok ==> r.unwrap() is None)
            &&& (r is Err ==> r.unwrap_err() is ParseError)
        },
        ctx.open_channel_needed ==> ({
            match parsed_invoice(invoice@) {
                None => r is Err && r.unwrap_err() is ParseError,
                Some(inv) => {
                    if ctx.channel_opening_fee_params is None {
                        r is Err && r.unwrap_err() is Generic
                    } else if !is_hex_seq(inv.payment_hash@) || !is_hex_seq(inv.payee_pubkey@) {
                        r is Err && r.unwrap_err() is Generic
                    } else {
                        &&& r is Ok
                        &&& r.unwrap() matches Some(pi) && {
                            &&& pi.payment_hash@ == bytes_of_hex(inv.payment_hash@)
                            &&& pi.payment_secret@ == inv.payment_secret@
                            &&& pi.destination@ == bytes_of_hex(inv.payee_pubkey@)
                            &&& pi.incoming_amount_msat == req.amount_msat as i64
                            &&& pi.outgoing_amount_msat
                                == ctx.destination_invoice_amount_msat as i64
                            &&& pi.opening_fee_params == ctx.channel_opening_fee_params
                        }
                    }
                },
            }
        }),
{
    let parsed = match parse_invoice(invoice) {
        Ok(p) => p,
        Err(e) => {
            return Err(e);
        },
    };
    if !ctx.open_channel_needed {
        return Ok(None);
    }
    let ofp = match &ctx.channel_opening_fee_params {
        Some(f) => f.clone(),
        None => {
            return Err(
                ReceivePaymentError::Generic {
                    err: String::from_str(
                        "We need to open a channel, but no channel opening fee params found",
                    ),
                },
            );
        },
    };
    let payment_hash = match hex_decode(parsed.payment_hash.as_str()) {
        Some(h) => h,
        None => {
            return Err(
                ReceivePaymentError::Generic {
                    err: String::from_str("Failed to decode hex payment hash"),
                },
            );
        },
    };
    let destination = match hex_decode(parsed.payee_pubkey.as_str()) {
        Some(d) => d,
        None => {
            return Err(
                ReceivePaymentError::Generic {
                    err: String::from_str("Failed to decode hex payee pubkey"),
                },
            );
        },
    };
    Ok(
        Some(
            PaymentInfo {
                payment_hash,
                payment_secret: parsed.payment_secret,
                destination,
                incoming_amount_msat: req.amount_msat as i64,
                outgoing_amount_msat: ctx.destination_invoice_amount_msat as i64,
                opening_fee_params: Some(ofp),
            },
        ),
    )
}

} // verus!
