//! The node-state reconciliation engine: folds the raw listings returned by
//! the Lightning node — peers and channels, funds, closed channels,
//! invoices, outbound pays — into one consistent state snapshot plus a
//! payment-history delta and a merged channel list. The fold is pure:
//! identical inputs always give an identical snapshot.

use vstd::prelude::*;
use crate::error::NodeError;
use crate::hexutil::{hex_of, hex_encode};
use crate::models::{
    Channel, ChannelState, LnPaymentDetails, NodeState, Payment, PaymentDetails, PaymentStatus,
    PaymentType, UnspentTransactionOutput,
};

verus! {

/// Protocol-level ceiling on the size of a single payment.
pub const MAX_PAYMENT_AMOUNT_MSAT: u64 = 4294967000;

/// Global cap on inbound liquidity accounted to the node.
pub const MAX_INBOUND_LIQUIDITY_MSAT: u64 = 4000000000;

/// The node identity listing: id and current block height.
#[derive(Clone, Debug, PartialEq)]
pub struct Getinfo {
    pub id: Vec<u8>,
    pub blockheight: u32,
}

/// One on-chain output from the funds listing.
#[derive(Clone, Debug, PartialEq)]
pub struct ListFundsOutput {
    pub txid: Vec<u8>,
    pub output: u32,
    pub amount_msat: Option<u64>,
    pub address: Option<String>,
    pub reserved: bool,
}

/// The funds listing.
#[derive(Clone, Debug, PartialEq)]
pub struct ListFunds {
    pub outputs: Vec<ListFundsOutput>,
}

/// One entry of the closed-channel listing.
#[derive(Clone, Debug, PartialEq)]
pub struct ClosedChannelListing {
    pub funding_txid: Vec<u8>,
    pub short_channel_id: Option<String>,
    pub alias_remote: Option<String>,
}

/// The closed-channel listing.
#[derive(Clone, Debug, PartialEq)]
pub struct ListClosedChannels {
    pub closedchannels: Vec<ClosedChannelListing>,
}

/// One channel of a peer, as listed by the node.
#[derive(Clone, Debug, PartialEq)]
pub struct ChannelListing {
    pub state: ChannelState,
    pub spendable_msat: Option<u64>,
    pub receivable_msat: Option<u64>,
    pub short_channel_id: Option<String>,
    pub alias_remote: Option<String>,
    pub funding_txid: Option<Vec<u8>>,
}

/// One peer of the peer listing, with its channels.
#[derive(Clone, Debug, PartialEq)]
pub struct PeerListing {
    pub id: Vec<u8>,
    pub connected: bool,
    pub channels: Vec<ChannelListing>,
}

/// The peer listing.
#[derive(Clone, Debug, PartialEq)]
pub struct ListPeers {
    pub peers: Vec<PeerListing>,
}

/// Settlement status of a listed invoice.
#[derive(Clone, Copy, Debug, PartialEq, Eq, Structural)]
pub enum InvoiceListingStatus {
    Unpaid,
    Paid,
    Expired,
}

/// One entry of the invoice listing.
#[derive(Clone, Debug, PartialEq)]
pub struct InvoiceListing {
    pub label: String,
    pub description: Option<String>,
    pub payment_hash: Vec<u8>,
    pub status: InvoiceListingStatus,
    pub amount_received_msat: Option<u64>,
    pub paid_at: Option<u64>,
    pub payment_preimage: Option<Vec<u8>>,
    pub bolt11: Option<String>,
}

/// The invoice listing.
#[derive(Clone, Debug, PartialEq)]
pub struct ListInvoices {
    pub invoices: Vec<InvoiceListing>,
}

/// Status of a listed outbound pay.
#[derive(Clone, Copy, Debug, PartialEq, Eq, Structural)]
pub enum PayListingStatus {
    Pending,
    Failed,
    Complete,
}

/// One entry of the outbound-pays listing.
#[derive(Clone, Debug, PartialEq)]
pub struct PayListing {
    pub payment_hash: Vec<u8>,
    pub status: PayListingStatus,
    pub amount_msat: Option<u64>,
    pub amount_sent_msat: Option<u64>,
    pub created_at: u64,
    pub destination: Option<Vec<u8>>,
    pub preimage: Option<Vec<u8>>,
    pub bolt11: Option<String>,
}

/// The outbound-pays listing.
#[derive(Clone, Debug, PartialEq)]
pub struct ListPays {
    pub pays: Vec<PayListing>,
}

/// One reconciliation snapshot: the node state, the payment-history delta,
/// and the merged channel list.
#[derive(Clone, Debug, PartialEq)]
pub struct SyncResponse {
    pub node_state: NodeState,
    pub payments: Vec<Payment>,
    pub channels: Vec<Channel>,
}

/// An absent amount counts as zero.
pub open spec fn opt0(a: Option<u64>) -> int {
    match a {
        Some(v) => v as int,
        None => 0,
    }
}

/// All peers' channels, flattened in peer-list order.
pub open spec fn spec_all_channels(peers: Seq<PeerListing>) -> Seq<ChannelListing>
    decreases peers.len(),
{
    if peers.len() == 0 {
        Seq::empty()
    } else {
        spec_all_channels(peers.drop_last()) + peers.last().channels@
    }
}

/// Sum of spendable amounts over exactly the fully-open channels.
pub open spec fn spec_channels_balance(cs: Seq<ChannelListing>) -> int
    decreases cs.len(),
{
    if cs.len() == 0 {
        0
    } else {
        spec_channels_balance(cs.drop_last()) + if cs.last().state is Opened {
            opt0(cs.last().spendable_msat)
        } else {
            0
        }
    }
}

/// Largest receivable amount over a single fully-open channel.
pub open spec fn spec_inbound_liquidity(cs: Seq<ChannelListing>) -> int
    decreases cs.len(),
{
    if cs.len() == 0 {
        0
    } else {
        let rest = spec_inbound_liquidity(cs.drop_last());
        let here: int = if cs.last().state is Opened {
            opt0(cs.last().receivable_msat)
        } else {
            0
        };
        if here > rest {
            here
        } else {
            rest
        }
    }
}

/// Sum of the unreserved on-chain output amounts.
pub open spec fn spec_onchain_balance(outs: Seq<ListFundsOutput>) -> int
    decreases outs.len(),
{
    if outs.len() == 0 {
        0
    } else {
        spec_onchain_balance(outs.drop_last()) + if outs.last().reserved {
            0
        } else {
            opt0(outs.last().amount_msat)
        }
    }
}

/// Hex ids of the connected peers, in peer-list order.
pub open spec fn spec_connected_ids(peers: Seq<PeerListing>) -> Seq<Seq<char>>
    decreases peers.len(),
{
    if peers.len() == 0 {
        Seq::empty()
    } else {
        spec_connected_ids(peers.drop_last()) + if peers.last().connected {
            seq![hex_of(peers.last().id@)]
        } else {
            Seq::empty()
        }
    }
}

/// Some current channel was funded by `txid`.
pub open spec fn txid_in_channels(cs: Seq<ChannelListing>, txid: Seq<u8>) -> bool {
    exists|i: int|
        0 <= i < cs.len() && ((#[trigger] cs[i].funding_txid) matches Some(t) && t@ == txid)
}

/// The closed channels whose funding transaction id matches no current
/// channel: only these enter the merged channel list, so a channel that was
/// reopened is never reported twice.
pub open spec fn spec_forgotten_closed(
    closed: Seq<ClosedChannelListing>,
    cs: Seq<ChannelListing>,
) -> Seq<ClosedChannelListing>
    decreases closed.len(),
{
    if closed.len() == 0 {
        Seq::empty()
    } else {
        spec_forgotten_closed(closed.drop_last(), cs) + if !txid_in_channels(
            cs,
            closed.last().funding_txid@,
        ) {
            seq![closed.last()]
        } else {
            Seq::empty()
        }
    }
}

/// `a` and `b` hold the same optional text.
pub open spec fn opt_str_matches(a: Option<String>, b: Option<String>) -> bool {
    match (a, b) {
        (Some(x), Some(y)) => x@ == y@,
        (None, None) => true,
        _ => false,
    }
}

/// The channel model entry derived from a current channel listing.
pub open spec fn channel_matches_listing(ch: Channel, c: ChannelListing) -> bool {
    &&& ch.state == c.state
    &&& ch.spendable_msat as int == opt0(c.spendable_msat)
    &&& ch.receivable_msat as int == opt0(c.receivable_msat)
    &&& ch.short_channel_id@ == (match c.short_channel_id {
        Some(s) => s@,
        None => Seq::<char>::empty(),
    })
    &&& opt_str_matches(ch.alias_remote, c.alias_remote)
    &&& (match (ch.funding_txid, c.funding_txid) {
        (Some(t), Some(b)) => t@ == hex_of(b@),
        (None, None) => true,
        _ => false,
    })
}

/// The channel model entry derived from a forgotten closed channel.
pub open spec fn channel_matches_closed(ch: Channel, c: ClosedChannelListing) -> bool {
    &&& ch.state is Closed
    &&& ch.spendable_msat == 0
    &&& ch.receivable_msat == 0
    &&& ch.short_channel_id@ == (match c.short_channel_id {
        Some(s) => s@,
        None => Seq::<char>::empty(),
    })
    &&& opt_str_matches(ch.alias_remote, c.alias_remote)
    &&& ch.funding_txid matches Some(t) && t@ == hex_of(c.funding_txid@)
}

/// An invoice enters the history delta: paid, and settled after `since`.
pub open spec fn invoice_selected(inv: InvoiceListing, since: u64) -> bool {
    opt0(inv.paid_at) > since && inv.status is Paid
}

/// A pay enters the history delta: created after `since`.
pub open spec fn pay_selected(p: PayListing, since: u64) -> bool {
    p.created_at > since
}

/// The invoice converts into a history entry: its timestamp fits, and it
/// was settled at a known time.
pub open spec fn invoice_convertible(inv: InvoiceListing) -> bool {
    opt0(inv.paid_at) <= i64::MAX
}

/// The pay converts into a history entry: its timestamp fits and the sent
/// amount covers the delivered amount, the difference being the fee.
pub open spec fn pay_convertible(p: PayListing) -> bool {
    p.created_at <= i64::MAX && opt0(p.amount_sent_msat) >= opt0(p.amount_msat)
}

/// The invoices of the listing that enter the delta, in listing order.
pub open spec fn spec_selected_invoices(
    invs: Seq<InvoiceListing>,
    since: u64,
) -> Seq<InvoiceListing>
    decreases invs.len(),
{
    if invs.len() == 0 {
        Seq::empty()
    } else {
        spec_selected_invoices(invs.drop_last(), since) + if invoice_selected(invs.last(), since) {
            seq![invs.last()]
        } else {
            Seq::empty()
        }
    }
}

/// The pays of the listing that enter the delta, in listing order.
pub open spec fn spec_selected_pays(pays: Seq<PayListing>, since: u64) -> Seq<PayListing>
    decreases pays.len(),
{
    if pays.len() == 0 {
        Seq::empty()
    } else {
        spec_selected_pays(pays.drop_last(), since) + if pay_selected(pays.last(), since) {
            seq![pays.last()]
        } else {
            Seq::empty()
        }
    }
}

/// The history entry derived from a received (paid) invoice.
pub open spec fn payment_matches_invoice(p: Payment, inv: InvoiceListing) -> bool {
    &&& p.id@ == hex_of(inv.payment_hash@)
    &&& p.payment_type is Received
    &&& p.payment_time == opt0(inv.paid_at)
    &&& p.amount_msat as int == opt0(inv.amount_received_msat)
    &&& p.fee_msat == 0
    &&& p.status is Complete
    &&& opt_str_matches(p.description, inv.description)
    &&& p.details matches PaymentDetails::Ln { data } && {
        &&& data.payment_hash@ == hex_of(inv.payment_hash@)
        &&& data.label@ == inv.label@
        &&& data.destination_pubkey@ == Seq::<char>::empty()
        &&& data.payment_preimage@ == (match inv.payment_preimage {
            Some(pi) => hex_of(pi@),
            None => Seq::<char>::empty(),
        })
        &&& !data.keysend
        &&& data.bolt11@ == (match inv.bolt11 {
            Some(b) => b@,
            None => Seq::<char>::empty(),
        })
        &&& data.lnurl_success_action is None
        &&& data.lnurl_metadata is None
        &&& data.ln_address is None
        &&& data.lnurl_withdraw_endpoint is None
        &&& data.swap_info is None
    }
}

/// The history entry derived from an outbound pay.
pub open spec fn payment_matches_pay(p: Payment, q: PayListing) -> bool {
    &&& p.id@ == hex_of(q.payment_hash@)
    &&& p.payment_type is Sent
    &&& p.payment_time == q.created_at
    &&& p.amount_msat as int == opt0(q.amount_msat)
    &&& p.fee_msat as int == opt0(q.amount_sent_msat) - opt0(q.amount_msat)
    &&& p.status == (match q.status {
        PayListingStatus::Pending => PaymentStatus::Pending,
        PayListingStatus::Failed => PaymentStatus::Failed,
        PayListingStatus::Complete => PaymentStatus::Complete,
    })
    &&& p.description is None
    &&& p.details matches PaymentDetails::Ln { data } && {
        &&& data.payment_hash@ == hex_of(q.payment_hash@)
        &&& data.label@ == Seq::<char>::empty()
        &&& data.destination_pubkey@ == (match q.destination {
            Some(d) => hex_of(d@),
            None => Seq::<char>::empty(),
        })
        &&& data.payment_preimage@ == (match q.preimage {
            Some(pi) => hex_of(pi@),
            None => Seq::<char>::empty(),
        })
        &&& !data.keysend
        &&& data.bolt11@ == (match q.bolt11 {
            Some(b) => b@,
            None => Seq::<char>::empty(),
        })
        &&& data.lnurl_success_action is None
        &&& data.lnurl_metadata is None
        &&& data.ln_address is None
        &&& data.lnurl_withdraw_endpoint is None
        &&& data.swap_info is None
    }
}

/// The node state derived wholesale from the identity, funds and peer
/// listings. The reserve is the channel balance less whatever of it is
/// payable; the two figures are computed by the same fold, so the reserve
/// is zero by construction.
pub open spec fn node_state_matches(
    ns: NodeState,
    info: Getinfo,
    funds: ListFunds,
    peers: ListPeers,
) -> bool {
    let cs = spec_all_channels(peers.peers@);
    let balance = spec_channels_balance(cs);
    &&& ns.id@ == hex_of(info.id@)
    &&& ns.block_height == info.blockheight
    &&& ns.channels_balance_msat as int == balance
    &&& ns.onchain_balance_msat as int == spec_onchain_balance(funds.outputs@)
    &&& ns.utxos@.len() == funds.outputs@.len()
    &&& (forall|i: int|
        0 <= i < funds.outputs@.len() ==> utxo_matches_output(
            #[trigger] ns.utxos@[i],
            funds.outputs@[i],
        ))
    &&& ns.max_payable_msat as int == balance
    &&& ns.max_receivable_msat as int == (if balance >= MAX_INBOUND_LIQUIDITY_MSAT {
        0int
    } else {
        MAX_INBOUND_LIQUIDITY_MSAT - balance
    })
    &&& ns.max_single_payment_amount_msat == MAX_PAYMENT_AMOUNT_MSAT
    &&& ns.max_chan_reserve_msats == 0
    &&& ns.connected_peers@.map_values(|s: String| s@) == spec_connected_ids(peers.peers@)
    &&& ns.inbound_liquidity_msats as int == spec_inbound_liquidity(cs)
}

/// The wallet's view of one on-chain output.
pub open spec fn utxo_matches_output(u: UnspentTransactionOutput, o: ListFundsOutput) -> bool {
    &&& u.txid@ == o.txid@
    &&& u.outnum == o.output
    &&& u.amount_millisatoshi as int == opt0(o.amount_msat)
    &&& u.address@ == (match o.address {
        Some(a) => a@,
        None => Seq::<char>::empty(),
    })
    &&& u.reserved == o.reserved
}


proof fn lemma_channels_balance_nonneg(cs: Seq<ChannelListing>)
    ensures
        spec_channels_balance(cs) >= 0,
    decreases cs.len(),
{
    if cs.len() > 0 {
        lemma_channels_balance_nonneg(cs.drop_last());
    }
}

/// A prefix of the channel list never sums to more than the whole list.
proof fn lemma_channels_balance_prefix(cs: Seq<ChannelListing>, k: int)
    requires
        0 <= k <= cs.len(),
    ensures
        0 <= spec_channels_balance(cs.take(k)) <= spec_channels_balance(cs),
    decreases cs.len() - k,
{
    lemma_channels_balance_nonneg(cs.take(k));
    if k < cs.len() {
        lemma_channels_balance_prefix(cs, k + 1);
        assert(cs.take(k + 1).drop_last() =~= cs.take(k));
        assert(cs.take(k + 1).last() == cs[k]);
    } else {
        assert(cs.take(k) =~= cs);
    }
}

proof fn lemma_onchain_balance_nonneg(outs: Seq<ListFundsOutput>)
    ensures
        spec_onchain_balance(outs) >= 0,
    decreases outs.len(),
{
    if outs.len() > 0 {
        lemma_onchain_balance_nonneg(outs.drop_last());
    }
}

/// A prefix of the output list never sums to more than the whole list.
proof fn lemma_onchain_balance_prefix(outs: Seq<ListFundsOutput>, k: int)
    requires
        0 <= k <= outs.len(),
    ensures
        0 <= spec_onchain_balance(outs.take(k)) <= spec_onchain_balance(outs),
    decreases outs.len() - k,
{
    lemma_onchain_balance_nonneg(outs.take(k));
    if k < outs.len() {
        lemma_onchain_balance_prefix(outs, k + 1);
        assert(outs.take(k + 1).drop_last() =~= outs.take(k));
        assert(outs.take(k + 1).last() == outs[k]);
    } else {
        assert(outs.take(k) =~= outs);
    }
}

fn bytes_eq(a: &Vec<u8>, b: &Vec<u8>) -> (r: bool)
    ensures
        r == (a@ == b@),
{
    if a.len() != b.len() {
        return false;
    }
    let mut i: usize = 0;
    while i < a.len()
        invariant
            a@.len() == b@.len(),
            i <= a@.len(),
            forall|j: int| 0 <= j < i ==> a@[j] == b@[j],
        decreases a@.len() - i,
    {
        if a[i] != b[i] {
            return false;
        }
        i = i + 1;
    }
    proof {
        assert(a@ =~= b@);
    }
    true
}

fn channels_contain_txid(cs: &Vec<ChannelListing>, txid: &Vec<u8>) -> (r: bool)
    ensures
        r == txid_in_channels(cs@, txid@),
{
    let mut i: usize = 0;
    while i < cs.len()
        invariant
            i <= cs@.len(),
            forall|j: int|
                0 <= j < i ==> !((#[trigger] cs@[j].funding_txid) matches Some(t) && t@
                    == txid@),
        decreases cs@.len() - i,
    {
        match &cs[i].funding_txid {
            Some(t) => {
                if bytes_eq(t, txid) {
                    proof {
                        assert((cs@[i as int].funding_txid) matches Some(u) && u@ == txid@);
                    }
                    return true;
                }
            },
            None => (),
        }
        i = i + 1;
    }
    false
}

/// Reconciles the node state from the five upstream listings: recomputes
/// every balance and limit wholesale, converts the listings into the
/// wallet's channel and payment models, and selects the history delta of
/// entries settled or created after `since_timestamp`. Any listing entry
/// that cannot be converted aborts the whole snapshot.
pub fn pull_changed(
    node_info: Getinfo,
    node_funds: ListFunds,
    node_closed_channels: ListClosedChannels,
    node_peers: ListPeers,
    node_invoices: ListInvoices,
    since_timestamp: u64,
    node_payments: ListPays,
) -> (r: Result<SyncResponse, NodeError>)
    requires
        spec_channels_balance(spec_all_channels(node_peers.peers@)) <= u64::MAX,
        spec_onchain_balance(node_funds.outputs@) <= u64::MAX,
    ensures
        (r is Ok <==> ({
            &&& (forall|i: int|
                0 <= i < node_invoices.invoices@.len() && invoice_selected(
                    #[trigger] node_invoices.invoices@[i],
                    since_timestamp,
                ) ==> invoice_convertible(node_invoices.invoices@[i]))
            &&& (forall|i: int|
                0 <= i < node_payments.pays@.len() && pay_selected(
                    #[trigger] node_payments.pays@[i],
                    since_timestamp,
                ) ==> pay_convertible(node_payments.pays@[i]))
        })),
        r is Err ==> r.unwrap_err() is Generic,
        r matches Ok(sync) ==> ({
            let cs = spec_all_channels(node_peers.peers@);
            let forgotten = spec_forgotten_closed(node_closed_channels.closedchannels@, cs);
            let ri = spec_selected_invoices(node_invoices.invoices@, since_timestamp);
            let sp = spec_selected_pays(node_payments.pays@, since_timestamp);
            &&& node_state_matches(sync.node_state, node_info, node_funds, node_peers)
            &&& sync.channels@.len() == cs.len() + forgotten.len()
            &&& (forall|i: int|
                0 <= i < cs.len() ==> channel_matches_listing(
                    #[trigger] sync.channels@[i],
                    cs[i],
                ))
            &&& (forall|i: int|
                0 <= i < forgotten.len() ==> channel_matches_closed(
                    #[trigger] sync.channels@[cs.len() + i],
                    forgotten[i],
                ))
            &&& sync.payments@.len() == ri.len() + sp.len()
            &&& (forall|i: int|
                0 <= i < ri.len() ==> payment_matches_invoice(
                    #[trigger] sync.payments@[i],
                    ri[i],
                ))
            &&& (forall|i: int|
                0 <= i < sp.len() ==> payment_matches_pay(
                    #[trigger] sync.payments@[ri.len() + i],
                    sp[i],
                ))
        }),
{
    let ghost peers0 = node_peers.peers@;
    let ghost outputs0 = node_funds.outputs@;
    let ghost closed0 = node_closed_channels.closedchannels@;
    let ghost invs0 = node_invoices.invoices@;
    let ghost pays0 = node_payments.pays@;

    // Validate every selected listing entry up front: the snapshot is all
    // or nothing, so a bad entry aborts before anything is built.
    let invoices_ref = &node_invoices.invoices;
    let mut v: usize = 0;
    while v < invoices_ref.len()
        invariant
            invoices_ref == &node_invoices.invoices,
            v <= invoices_ref@.len(),
            forall|j: int|
                0 <= j < v && invoice_selected(
                    #[trigger] node_invoices.invoices@[j],
                    since_timestamp,
                ) ==> invoice_convertible(node_invoices.invoices@[j]),
        decreases invoices_ref@.len() - v,
    {
        let inv = &invoices_ref[v];
        let paid_at = match inv.paid_at {
            Some(t) => t,
            None => 0,
        };
        if paid_at > since_timestamp && inv.status == InvoiceListingStatus::Paid && paid_at
            > 0x7fff_ffff_ffff_ffff {
            return Err(
                NodeError::Generic {
                    err: String::from_str("invoice settled at a time out of range"),
                },
            );
        }
        v = v + 1;
    }
    let pays_ref = &node_payments.pays;
    let mut w: usize = 0;
    while w < pays_ref.len()
        invariant
            pays_ref == &node_payments.pays,
            w <= pays_ref@.len(),
            forall|j: int|
                0 <= j < w && pay_selected(#[trigger] node_payments.pays@[j], since_timestamp)
                    ==> pay_convertible(node_payments.pays@[j]),
        decreases pays_ref@.len() - w,
    {
        let p = &pays_ref[w];
        if p.created_at > since_timestamp {
            let amount = match p.amount_msat {
                Some(a) => a,
                None => 0,
            };
            let sent = match p.amount_sent_msat {
                Some(a) => a,
                None => 0,
            };
            if p.created_at > 0x7fff_ffff_ffff_ffff || sent < amount {
                return Err(
                    NodeError::Generic {
                        err: String::from_str("outbound pay listing out of range"),
                    },
                );
            }
        }
        w = w + 1;
    }

    // Flatten all peers' channels and collect connected peer ids.
    let mut all_channels: Vec<ChannelListing> = Vec::new();
    let mut connected_peers: Vec<String> = Vec::new();
    let mut peers = node_peers.peers;
    proof {
        assert(peers0.skip(0) =~= peers0);
        assert(peers0.take(0) =~= Seq::<PeerListing>::empty());
        assert(connected_peers@.map_values(|s: String| s@) =~= Seq::<Seq<char>>::empty());
    }
    while peers.len() > 0
        invariant
            peers@.len() <= peers0.len(),
            peers@ == peers0.skip(peers0.len() - peers@.len()),
            all_channels@ == spec_all_channels(peers0.take(peers0.len() - peers@.len())),
            connected_peers@.map_values(|s: String| s@) == spec_connected_ids(
                peers0.take(peers0.len() - peers@.len()),
            ),
        decreases peers@.len(),
    {
        let ghost done = peers0.len() - peers@.len();
        let mut peer = peers.remove(0);
        proof {
            assert(peer == peers0[done]);
            assert(peers@ =~= peers0.skip(done + 1));
            assert(peers0.take(done + 1).drop_last() =~= peers0.take(done));
            assert(peers0.take(done + 1).last() == peers0[done]);
        }
        if peer.connected {
            let hexid = hex_encode(peer.id.as_slice());
            connected_peers.push(hexid);
        }
        proof {
            assert(connected_peers@.map_values(|s: String| s@) =~= spec_connected_ids(
                peers0.take(done + 1),
            ));
        }
        let mut chs = peer.channels;
        all_channels.append(&mut chs);
    }
    proof {
        assert(peers0.take(peers0.len() as int) =~= peers0);
    }
    let ghost cs = all_channels@;

    // Balances and the single-channel inbound liquidity ceiling.
    let mut channels_balance: u64 = 0;
    let mut inbound_liquidity: u64 = 0;
    proof {
        assert(cs.take(0) =~= Seq::<ChannelListing>::empty());
    }
    let mut i: usize = 0;
    while i < all_channels.len()
        invariant
            cs == all_channels@,
            spec_channels_balance(cs) <= u64::MAX,
            i <= cs.len(),
            channels_balance as int == spec_channels_balance(cs.take(i as int)),
            inbound_liquidity as int == spec_inbound_liquidity(cs.take(i as int)),
        decreases cs.len() - i,
    {
        proof {
            lemma_channels_balance_prefix(cs, i + 1);
            assert(cs.take(i + 1).drop_last() =~= cs.take(i as int));
            assert(cs.take(i + 1).last() == cs[i as int]);
        }
        let c = &all_channels[i];
        if c.state == ChannelState::Opened {
            channels_balance = channels_balance + c.spendable_msat.unwrap_or(0);
            let recv = c.receivable_msat.unwrap_or(0);
            if recv > inbound_liquidity {
                inbound_liquidity = recv;
            }
        }
        i = i + 1;
    }
    proof {
        assert(cs.take(cs.len() as int) =~= cs);
    }

    // On-chain balance and the UTXO list.
    let mut onchain_balance: u64 = 0;
    let mut utxos: Vec<UnspentTransactionOutput> = Vec::new();
    let mut outputs = node_funds.outputs;
    proof {
        assert(outputs0.skip(0) =~= outputs0);
        assert(outputs0.take(0) =~= Seq::<ListFundsOutput>::empty());
    }
    while outputs.len() > 0
        invariant
            outputs@.len() <= outputs0.len(),
            outputs@ == outputs0.skip(outputs0.len() - outputs@.len()),
            spec_onchain_balance(outputs0) <= u64::MAX,
            onchain_balance as int == spec_onchain_balance(
                outputs0.take(outputs0.len() - outputs@.len()),
            ),
            utxos@.len() == outputs0.len() - outputs@.len(),
            forall|j: int|
                0 <= j < outputs0.len() - outputs@.len() ==> utxo_matches_output(
                    #[trigger] utxos@[j],
                    outputs0[j],
                ),
        decreases outputs@.len(),
    {
        let ghost done = outputs0.len() - outputs@.len();
        let output = outputs.remove(0);
        proof {
            assert(output == outputs0[done]);
            assert(outputs@ =~= outputs0.skip(done + 1));
            lemma_onchain_balance_prefix(outputs0, done + 1);
            assert(outputs0.take(done + 1).drop_last() =~= outputs0.take(done));
            assert(outputs0.take(done + 1).last() == outputs0[done]);
        }
        if !output.reserved {
            onchain_balance = onchain_balance + output.amount_msat.unwrap_or(0);
        }
        let address = match output.address {
            Some(a) => a,
            None => String::new(),
        };
        utxos.push(
            UnspentTransactionOutput {
                txid: output.txid,
                outnum: output.output,
                amount_millisatoshi: output.amount_msat.unwrap_or(0),
                address,
                reserved: output.reserved,
            },
        );
    }
    proof {
        assert(outputs0.take(outputs0.len() as int) =~= outputs0);
    }

    // Closed channels not matching any current channel's funding txid.
    let mut forgotten: Vec<ClosedChannelListing> = Vec::new();
    let mut closed = node_closed_channels.closedchannels;
    proof {
        assert(closed0.skip(0) =~= closed0);
        assert(closed0.take(0) =~= Seq::<ClosedChannelListing>::empty());
        assert(forgotten@ =~= spec_forgotten_closed(closed0.take(0), cs));
    }
    while closed.len() > 0
        invariant
            cs == all_channels@,
            closed@.len() <= closed0.len(),
            closed@ == closed0.skip(closed0.len() - closed@.len()),
            forgotten@ == spec_forgotten_closed(closed0.take(closed0.len() - closed@.len()), cs),
        decreases closed@.len(),
    {
        let ghost done = closed0.len() - closed@.len();
        let c = closed.remove(0);
        proof {
            assert(c == closed0[done]);
            assert(closed@ =~= closed0.skip(done + 1));
            assert(closed0.take(done + 1).drop_last() =~= closed0.take(done));
            assert(closed0.take(done + 1).last() == closed0[done]);
        }
        if !channels_contain_txid(&all_channels, &c.funding_txid) {
            forgotten.push(c);
        }
    }
    proof {
        assert(closed0.take(closed0.len() as int) =~= closed0);
    }
    let ghost forgotten0 = forgotten@;

    // The merged channel list: every current channel, then the forgotten
    // closed ones, all in the wallet's channel model.
    let mut channels: Vec<Channel> = Vec::new();
    let mut current = all_channels;
    proof {
        assert(cs.skip(0) =~= cs);
    }
    while current.len() > 0
        invariant
            current@.len() <= cs.len(),
            current@ == cs.skip(cs.len() - current@.len()),
            channels@.len() == cs.len() - current@.len(),
            forall|j: int|
                0 <= j < cs.len() - current@.len() ==> channel_matches_listing(
                    #[trigger] channels@[j],
                    cs[j],
                ),
        decreases current@.len(),
    {
        let ghost done = cs.len() - current@.len();
        let c = current.remove(0);
        proof {
            assert(c == cs[done]);
            assert(current@ =~= cs.skip(done + 1));
        }
        let funding_txid = match c.funding_txid {
            Some(b) => Some(hex_encode(b.as_slice())),
            None => None,
        };
        let short_channel_id = match c.short_channel_id {
            Some(s) => s,
            None => String::new(),
        };
        channels.push(
            Channel {
                state: c.state,
                spendable_msat: c.spendable_msat.unwrap_or(0),
                receivable_msat: c.receivable_msat.unwrap_or(0),
                short_channel_id,
                alias_remote: c.alias_remote,
                funding_txid,
            },
        );
    }
    let mut forg = forgotten;
    proof {
        assert(forgotten0.skip(0) =~= forgotten0);
    }
    while forg.len() > 0
        invariant
            forg@.len() <= forgotten0.len(),
            forg@ == forgotten0.skip(forgotten0.len() - forg@.len()),
            channels@.len() == cs.len() + forgotten0.len() - forg@.len(),
            forall|j: int|
                0 <= j < cs.len() ==> channel_matches_listing(#[trigger] channels@[j], cs[j]),
            forall|j: int|
                0 <= j < forgotten0.len() - forg@.len() ==> channel_matches_closed(
                    #[trigger] channels@[cs.len() + j],
                    forgotten0[j],
                ),
        decreases forg@.len(),
    {
        let ghost done = forgotten0.len() - forg@.len();
        let c = forg.remove(0);
        proof {
            assert(c == forgotten0[done]);
            assert(forg@ =~= forgotten0.skip(done + 1));
        }
        let short_channel_id = match c.short_channel_id {
            Some(s) => s,
            None => String::new(),
        };
        channels.push(
            Channel {
                state: ChannelState::Closed,
                spendable_msat: 0,
                receivable_msat: 0,
                short_channel_id,
                alias_remote: c.alias_remote,
                funding_txid: Some(hex_encode(c.funding_txid.as_slice())),
            },
        );
    }

    // History delta: received invoices first, then outbound pays.
    let mut payments: Vec<Payment> = Vec::new();
    let mut invoices = node_invoices.invoices;
    proof {
        assert(invs0.skip(0) =~= invs0);
        assert(invs0.take(0) =~= Seq::<InvoiceListing>::empty());
        assert(payments@.len() == spec_selected_invoices(invs0.take(0), since_timestamp).len());
    }
    while invoices.len() > 0
        invariant
            invoices@.len() <= invs0.len(),
            invoices@ == invs0.skip(invs0.len() - invoices@.len()),
            payments@.len() == spec_selected_invoices(
                invs0.take(invs0.len() - invoices@.len()),
                since_timestamp,
            ).len(),
            forall|j: int|
                0 <= j < payments@.len() ==> payment_matches_invoice(
                    #[trigger] payments@[j],
                    spec_selected_invoices(
                        invs0.take(invs0.len() - invoices@.len()),
                        since_timestamp,
                    )[j],
                ),
            forall|j: int|
                0 <= j < invs0.len() && invoice_selected(#[trigger] invs0[j], since_timestamp)
                    ==> invoice_convertible(invs0[j]),
        decreases invoices@.len(),
    {
        let ghost done = invs0.len() - invoices@.len();
        let inv = invoices.remove(0);
        proof {
            assert(inv == invs0[done]);
            assert(invoices@ =~= invs0.skip(done + 1));
            assert(invs0.take(done + 1).drop_last() =~= invs0.take(done));
            assert(invs0.take(done + 1).last() == invs0[done]);
        }
        let paid_at = inv.paid_at.unwrap_or(0);
        if paid_at > since_timestamp && inv.status == InvoiceListingStatus::Paid {
            proof {
                assert(invoice_selected(invs0[done], since_timestamp));
                assert(invoice_convertible(invs0[done]));
            }
            let id = hex_encode(inv.payment_hash.as_slice());
            let preimage = match inv.payment_preimage {
                Some(p) => hex_encode(p.as_slice()),
                None => String::new(),
            };
            let bolt11 = match inv.bolt11 {
                Some(b) => b,
                None => String::new(),
            };
            payments.push(
                Payment {
                    id: id.clone(),
                    payment_type: PaymentType::Received,
                    payment_time: paid_at as i64,
                    amount_msat: inv.amount_received_msat.unwrap_or(0),
                    fee_msat: 0,
                    status: PaymentStatus::Complete,
                    description: inv.description,
                    details: PaymentDetails::Ln {
                        data: LnPaymentDetails {
                            payment_hash: id,
                            label: inv.label,
                            destination_pubkey: String::new(),
                            payment_preimage: preimage,
                            keysend: false,
                            bolt11,
                            lnurl_success_action: None,
                            lnurl_metadata: None,
                            ln_address: None,
                            lnurl_withdraw_endpoint: None,
                            swap_info: None,
                        },
                    },
                },
            );
        }
    }
    proof {
        assert(invs0.take(invs0.len() as int) =~= invs0);
    }
    let ghost ri = spec_selected_invoices(invs0, since_timestamp);

    let mut pays = node_payments.pays;
    proof {
        assert(pays0.skip(0) =~= pays0);
        assert(pays0.take(0) =~= Seq::<PayListing>::empty());
    }
    while pays.len() > 0
        invariant
            pays@.len() <= pays0.len(),
            pays@ == pays0.skip(pays0.len() - pays@.len()),
            payments@.len() == ri.len() + spec_selected_pays(
                pays0.take(pays0.len() - pays@.len()),
                since_timestamp,
            ).len(),
            forall|j: int|
                0 <= j < ri.len() ==> payment_matches_invoice(#[trigger] payments@[j], ri[j]),
            forall|j: int|
                0 <= j < spec_selected_pays(
                    pays0.take(pays0.len() - pays@.len()),
                    since_timestamp,
                ).len() ==> payment_matches_pay(
                    #[trigger] payments@[ri.len() + j],
                    spec_selected_pays(pays0.take(pays0.len() - pays@.len()), since_timestamp)[j],
                ),
            forall|j: int|
                0 <= j < pays0.len() && pay_selected(#[trigger] pays0[j], since_timestamp)
                    ==> pay_convertible(pays0[j]),
        decreases pays@.len(),
    {
        let ghost done = pays0.len() - pays@.len();
        let p = pays.remove(0);
        proof {
            assert(p == pays0[done]);
            assert(pays@ =~= pays0.skip(done + 1));
            assert(pays0.take(done + 1).drop_last() =~= pays0.take(done));
            assert(pays0.take(done + 1).last() == pays0[done]);
        }
        if p.created_at > since_timestamp {
            proof {
                assert(pay_selected(pays0[done], since_timestamp));
                assert(pay_convertible(pays0[done]));
            }
            let amount = p.amount_msat.unwrap_or(0);
            let sent = p.amount_sent_msat.unwrap_or(0);
            let id = hex_encode(p.payment_hash.as_slice());
            let destination = match p.destination {
                Some(d) => hex_encode(d.as_slice()),
                None => String::new(),
            };
            let preimage = match p.preimage {
                Some(pi) => hex_encode(pi.as_slice()),
                None => String::new(),
            };
            let bolt11 = match p.bolt11 {
                Some(b) => b,
                None => String::new(),
            };
            let status = match p.status {
                PayListingStatus::Pending => PaymentStatus::Pending,
                PayListingStatus::Failed => PaymentStatus::Failed,
                PayListingStatus::Complete => PaymentStatus::Complete,
            };
            payments.push(
                Payment {
                    id: id.clone(),
                    payment_type: PaymentType::Sent,
                    payment_time: p.created_at as i64,
                    amount_msat: amount,
                    fee_msat: sent - amount,
                    status,
                    description: None,
                    details: PaymentDetails::Ln {
                        data: LnPaymentDetails {
                            payment_hash: id,
                            label: String::new(),
                            destination_pubkey: destination,
                            payment_preimage: preimage,
                            keysend: false,
                            bolt11,
                            lnurl_success_action: None,
                            lnurl_metadata: None,
                            ln_address: None,
                            lnurl_withdraw_endpoint: None,
                            swap_info: None,
                        },
                    },
                },
            );
        }
    }
    proof {
        assert(pays0.take(pays0.len() as int) =~= pays0);
    }

    // The reserve formula: balance less whatever of it is payable; the two
    // figures coincide by construction, so the reserve is zero.
    let max_payable: u64 = channels_balance;
    let reserve: u64 = channels_balance - (if max_payable < channels_balance {
        max_payable
    } else {
        channels_balance
    });
    let max_receivable: u64 = if channels_balance >= MAX_INBOUND_LIQUIDITY_MSAT {
        0
    } else {
        MAX_INBOUND_LIQUIDITY_MSAT - channels_balance
    };

    let node_state = NodeState {
        id: hex_encode(node_info.id.as_slice()),
        block_height: node_info.blockheight,
        channels_balance_msat: channels_balance,
        onchain_balance_msat: onchain_balance,
        utxos,
        max_payable_msat: max_payable,
        max_receivable_msat: max_receivable,
        max_single_payment_amount_msat: MAX_PAYMENT_AMOUNT_MSAT,
        max_chan_reserve_msats: reserve,
        connected_peers,
        inbound_liquidity_msats: inbound_liquidity,
    };

    Ok(SyncResponse { node_state, payments, channels })
}


/// Reconciliation is deterministic: two node states derived from the same
/// identity, funds and peer listings agree on every figure and on the text
/// of every field, byte for byte.
pub proof fn lemma_reconcile_deterministic(
    ns1: NodeState,
    ns2: NodeState,
    info: Getinfo,
    funds: ListFunds,
    peers: ListPeers,
)
    requires
        node_state_matches(ns1, info, funds, peers),
        node_state_matches(ns2, info, funds, peers),
    ensures
        ns1.id@ == ns2.id@,
        ns1.block_height == ns2.block_height,
        ns1.channels_balance_msat == ns2.channels_balance_msat,
        ns1.onchain_balance_msat == ns2.onchain_balance_msat,
        ns1.utxos@.len() == ns2.utxos@.len(),
        forall|i: int|
            0 <= i < ns1.utxos@.len() ==> (#[trigger] ns1.utxos@[i]).txid@ == ns2.utxos@[i].txid@
                && ns1.utxos@[i].outnum == ns2.utxos@[i].outnum && ns1.utxos@[i].amount_millisatoshi
                == ns2.utxos@[i].amount_millisatoshi && ns1.utxos@[i].address@
                == ns2.utxos@[i].address@ && ns1.utxos@[i].reserved == ns2.utxos@[i].reserved,
        ns1.max_payable_msat == ns2.max_payable_msat,
        ns1.max_receivable_msat == ns2.max_receivable_msat,
        ns1.max_single_payment_amount_msat == ns2.max_single_payment_amount_msat,
        ns1.max_chan_reserve_msats == ns2.max_chan_reserve_msats,
        ns1.connected_peers@.map_values(|s: String| s@) == ns2.connected_peers@.map_values(
            |s: String| s@,
        ),
        ns1.inbound_liquidity_msats == ns2.inbound_liquidity_msats,
{
}

/// A closed channel whose funding transaction matches a currently listed
/// channel never enters the forgotten list, so a reopened channel is not
/// reported twice in the merged channel list.
pub proof fn lemma_reopened_channel_not_reported(
    closed: Seq<ClosedChannelListing>,
    cs: Seq<ChannelListing>,
)
    ensures
        forall|j: int|
            0 <= j < spec_forgotten_closed(closed, cs).len() ==> !txid_in_channels(
                cs,
                (#[trigger] spec_forgotten_closed(closed, cs)[j]).funding_txid@,
            ),
    decreases closed.len(),
{
    if closed.len() > 0 {
        lemma_reopened_channel_not_reported(closed.drop_last(), cs);
    }
}

} // verus!
