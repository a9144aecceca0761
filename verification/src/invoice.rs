//! The wallet's view of a BOLT11 invoice: parsing (through the
//! `lightning-invoice` crate) and the route-hint rewrite that precedes
//! re-signing by the node.

use vstd::prelude::*;
use crate::error::ReceivePaymentError;

verus! {

/// One hop of a route hint embedded in an invoice.
#[derive(Clone, Debug, PartialEq)]
pub struct RouteHintHop {
    /// Hex public key of the node the channel leads away from.
    pub src_node_id: String,
    pub short_channel_id: u64,
    pub fees_base_msat: u32,
    pub fees_proportional_millionths: u32,
    pub cltv_expiry_delta: u64,
    pub htlc_minimum_msat: Option<u64>,
    pub htlc_maximum_msat: Option<u64>,
}

/// A route hint: a private detour towards the payee.
#[derive(Clone, Debug, PartialEq)]
pub struct RouteHint {
    pub hops: Vec<RouteHintHop>,
}

/// A parsed BOLT11 invoice, reduced to the fields the wallet reads.
#[derive(Clone, Debug, PartialEq)]
pub struct LNInvoice {
    /// The string the invoice was parsed from.
    pub bolt11: String,
    /// Hex public key of the payee.
    pub payee_pubkey: String,
    /// Hex payment hash.
    pub payment_hash: String,
    pub payment_secret: Vec<u8>,
    pub amount_msat: Option<u64>,
    pub routing_hints: Vec<RouteHint>,
}

/// What parsing a BOLT11 string yields: a function of the characters alone.
pub uninterp spec fn parsed_invoice(s: Seq<char>) -> Option<LNInvoice>;

/// Relies on `lightning_invoice::Bolt11Invoice::from_str` and the invoice's
/// accessors (hash, payee key and hop keys rendered as lower-case hex by
/// their `Display` impls): parsing is deterministic in the input string,
/// and the `bolt11` field of the result is set to that input.
#[verifier::external_body]
fn parse_invoice_ext(bolt11: &str) -> (r: Option<LNInvoice>)
    ensures
        r == parsed_invoice(bolt11@),
        r is Some ==> r.unwrap().bolt11@ == bolt11@,
{
    let inv = <lightning_invoice::Bolt11Invoice as std::str::FromStr>::from_str(bolt11).ok()?;
    let hints = inv.route_hints().iter().map(|h| RouteHint {
        hops: h.0.iter().map(|p| RouteHintHop {
            src_node_id: p.src_node_id.to_string(),
            short_channel_id: p.short_channel_id, fees_base_msat: p.fees.base_msat,
            fees_proportional_millionths: p.fees.proportional_millionths,
            cltv_expiry_delta: p.cltv_expiry_delta as u64,
            htlc_minimum_msat: p.htlc_minimum_msat, htlc_maximum_msat: p.htlc_maximum_msat,
        }).collect() }).collect();
    Some(LNInvoice { bolt11: bolt11.to_string(),
        payee_pubkey: inv.get_payee_pub_key().to_string(),
        payment_hash: inv.payment_hash().to_string(),
        payment_secret: inv.payment_secret().0.to_vec(),
        amount_msat: inv.amount_milli_satoshis(), routing_hints: hints })
}

/// Parses a BOLT11 invoice string into the wallet's invoice model.
pub fn parse_invoice(bolt11: &str) -> (r: Result<LNInvoice, ReceivePaymentError>)
    ensures
        r is Ok <==> parsed_invoice(bolt11@) is Some,
        r is Ok ==> r.unwrap() == parsed_invoice(bolt11@).unwrap(),
        r is Err ==> r.unwrap_err() is ParseError,
{
    match parse_invoice_ext(bolt11) {
        Some(inv) => Ok(inv),
        None => Err(
            ReceivePaymentError::ParseError { err: String::from_str("invalid bolt11 invoice") },
        ),
    }
}

/// Some hop of some hint names `pubkey` as its source node.
pub open spec fn has_hint_for(hints: Seq<RouteHint>, pubkey: Seq<char>) -> bool {
    exists|i: int, j: int|
        0 <= i < hints.len() && 0 <= j < hints[i].hops@.len() && hints[i].hops@[j].src_node_id@
            == pubkey
}

/// Whether the invoice already carries a route hint through `pubkey`.
pub fn invoice_has_hint_for(invoice: &LNInvoice, pubkey: &String) -> (r: bool)
    ensures
        r == has_hint_for(invoice.routing_hints@, pubkey@),
{
    let hints = &invoice.routing_hints;
    let mut i: usize = 0;
    while i < hints.len()
        invariant
            hints == &invoice.routing_hints,
            i <= hints@.len(),
            forall|a: int, b: int|
                0 <= a < i && 0 <= b < hints@[a].hops@.len() ==> hints@[a].hops@[b].src_node_id@
                    != pubkey@,
        decreases hints@.len() - i,
    {
        let hops = &hints[i].hops;
        let mut j: usize = 0;
        while j < hops.len()
            invariant
                hints == &invoice.routing_hints,
                hops == &hints@[i as int].hops,
                i < hints@.len(),
                j <= hops@.len(),
                forall|b: int| 0 <= b < j ==> hops@[b].src_node_id@ != pubkey@,
            decreases hops@.len() - j,
        {
            if hops[j].src_node_id == *pubkey {
                proof {
                    assert((i as int) < hints@.len() && (j as int) < hints@[i as int].hops@.len()
                        && hints@[i as int].hops@[j as int].src_node_id@ == pubkey@);
                }
                return true;
            }
            j = j + 1;
        }
        i = i + 1;
    }
    false
}

/// An invoice rewrite awaiting re-signature by the node: the source invoice,
/// the full replacement hint list, and the amount the new invoice carries.
#[derive(Clone, Debug, PartialEq)]
pub struct UnsignedInvoice {
    pub source_bolt11: String,
    pub routing_hints: Vec<RouteHint>,
    pub amount_msat: u64,
}

/// The hint list of the rewritten invoice: the existing hints when merging,
/// followed by the new hint when one is given.
pub open spec fn spec_rewritten_hints(
    existing: Seq<RouteHint>,
    merge_with_existing: bool,
    new_hint: Option<RouteHint>,
) -> Seq<RouteHint> {
    let base: Seq<RouteHint> = if merge_with_existing {
        existing
    } else {
        Seq::empty()
    };
    match new_hint {
        Some(h) => base.push(h),
        None => base,
    }
}

/// Builds the modified, unsigned invoice: amount replaced by
/// `new_amount_msat`, hints replaced or extended per `merge_with_existing`.
/// Re-signing the result is the node's job, not this crate's.
pub fn add_lsp_routing_hints(
    invoice: LNInvoice,
    merge_with_existing: bool,
    lsp_hint: Option<RouteHint>,
    new_amount_msat: u64,
) -> (r: UnsignedInvoice)
    ensures
        r.source_bolt11@ == invoice.bolt11@,
        r.amount_msat == new_amount_msat,
        r.routing_hints@ == spec_rewritten_hints(
            invoice.routing_hints@,
            merge_with_existing,
            lsp_hint,
        ),
{
    let mut hints: Vec<RouteHint> = if merge_with_existing {
        invoice.routing_hints
    } else {
        Vec::new()
    };
    match lsp_hint {
        Some(h) => hints.push(h),
        None => (),
    }
    UnsignedInvoice {
        source_bolt11: invoice.bolt11,
        routing_hints: hints,
        amount_msat: new_amount_msat,
    }
}

} // verus!
