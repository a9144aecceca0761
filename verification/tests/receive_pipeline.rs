use sdk_core::error::ReceivePaymentError;
use sdk_core::invoice::parse_invoice;
use sdk_core::models::{LspInformation, OpeningFeeParams, Peer, Channel, ChannelState,
    ReceivePaymentRequest};
use sdk_core::receive::{
    prepare_invoice, check_lsp_hints, check_payment_registration, PreparedInvoiceContext,
    UNROUTABLE_SENTINEL_SCID,
};
use sdk_core::hexutil::hex_decode;

// A plain invoice of 11000 msat, no route hints.
const INVOICE_110N: &str = "lnbc110n1p38q3gtpp5ypz09jrd8p993snjwnm68cph4ftwp22le34xd4r8ftspwshxhmnsdqqxqyjw5qcqpxsp5htlg8ydpywvsa7h3u4hdn77ehs4z4e844em0apjyvmqfkzqhhd2q9qgsqqqyssqszpxzxt9uuqzymr7zxcdccj5g69s8q7zzjs7sgxn9ejhnvdh6gqjcy22mss2yexunagm5r2gqczh8k24cwrqml3njskm548aruhpwssq9nvrvz";

fn test_schedule() -> OpeningFeeParams {
    OpeningFeeParams {
        min_msat: 5_000_000,
        proportional: 50,
        valid_until: "2030-01-01T00:00:00Z".to_string(),
        max_idle_time: 0,
        max_client_to_self_delay: 0,
        promise: "promise".to_string(),
    }
}

fn test_lsp() -> LspInformation {
    LspInformation {
        id: "lsp-1".to_string(),
        pubkey: "02aa".to_string(),
        lsp_pubkey: vec![0x02, 0xaa],
        base_fee_msat: 1000,
        fee_rate_ppm: 3000,
        time_lock_delta: 42,
        min_htlc_msat: 600,
        opening_fee_params_list: vec![test_schedule()],
    }
}

fn test_request(amount_msat: u64) -> ReceivePaymentRequest {
    ReceivePaymentRequest {
        amount_msat,
        description: "test".to_string(),
        preimage: None,
        opening_fee_params: None,
        use_description_hash: None,
        expiry: None,
        cltv: None,
    }
}

const NOW: u64 = 1_700_000_000;

#[test]
fn test_zero_amount_rejected() {
    let peers: Vec<Peer> = vec![];
    let r = prepare_invoice(test_request(0), &test_lsp(), &peers, 0, NOW);
    assert!(matches!(r, Err(ReceivePaymentError::InvalidAmount { .. })));
}

#[test]
fn test_no_open_needed_keeps_amount() {
    let peers = vec![Peer {
        id: vec![0x02, 0xaa],
        connected: true,
        channels: vec![Channel {
            state: ChannelState::Opened,
            spendable_msat: 5_000,
            receivable_msat: 100_000,
            short_channel_id: "10x20x3".to_string(),
            alias_remote: None,
            funding_txid: None,
        }],
    }];
    let r = prepare_invoice(test_request(50_000), &test_lsp(), &peers, 100_000, NOW).unwrap();
    assert!(!r.open_channel_needed);
    assert_eq!(r.destination_invoice_amount_msat, 50_000);
    assert_eq!(r.short_channel_id, (10u64 << 40) | (20u64 << 16) | 3);
    assert!(r.channel_opening_fee_params.is_none());
    assert!(r.channel_fees_msat.is_none());
}

#[test]
fn test_no_lsp_peer_gives_sentinel_hint() {
    let peers = vec![Peer { id: vec![0x07], connected: true, channels: vec![] }];
    let r = prepare_invoice(test_request(50_000), &test_lsp(), &peers, 100_000, NOW).unwrap();
    assert_eq!(r.short_channel_id, UNROUTABLE_SENTINEL_SCID);
}

#[test]
fn test_no_open_channel_found() {
    let peers = vec![Peer {
        id: vec![0x02, 0xaa],
        connected: true,
        channels: vec![Channel {
            state: ChannelState::PendingOpen,
            spendable_msat: 0,
            receivable_msat: 0,
            short_channel_id: "1x2x3".to_string(),
            alias_remote: None,
            funding_txid: None,
        }],
    }];
    let r = prepare_invoice(test_request(50_000), &test_lsp(), &peers, 100_000, NOW);
    assert!(matches!(r, Err(ReceivePaymentError::Generic { .. })));
}

#[test]
fn test_fee_conservation_on_channel_open() {
    // amount 500_000_000 with inbound liquidity 100_000_000 needs an open;
    // fee = max(5_000_000, 500_000_000 * 50 / 1_000_000 = 25_000) = 5_000_000.
    let peers: Vec<Peer> = vec![];
    let r = prepare_invoice(test_request(500_000_000), &test_lsp(), &peers, 100_000_000, NOW)
        .unwrap();
    assert!(r.open_channel_needed);
    assert_eq!(r.channel_fees_msat, Some(5_000_000));
    assert_eq!(r.destination_invoice_amount_msat, 495_000_000);
    assert_eq!(
        r.destination_invoice_amount_msat + r.channel_fees_msat.unwrap(),
        500_000_000
    );
    assert_eq!(r.short_channel_id, UNROUTABLE_SENTINEL_SCID);
    assert_eq!(r.channel_opening_fee_params, Some(test_schedule()));
}

#[test]
fn test_proportional_fee_dominates() {
    // 200_000_000_000 * 50 / 1_000_000 = 10_000_000 > min 5_000_000.
    let peers: Vec<Peer> = vec![];
    let r = prepare_invoice(
        test_request(200_000_000_000),
        &test_lsp(),
        &peers,
        100_000_000,
        NOW,
    )
    .unwrap();
    assert_eq!(r.channel_fees_msat, Some(10_000_000));
    assert_eq!(r.destination_invoice_amount_msat, 200_000_000_000 - 10_000_000);
}

#[test]
fn test_amount_below_fee_margin_rejected() {
    // fee = 5_000_000 and 5_000_100 < 5_000_000 + 1000.
    let peers: Vec<Peer> = vec![];
    let r = prepare_invoice(test_request(5_000_100), &test_lsp(), &peers, 100, NOW);
    assert!(matches!(r, Err(ReceivePaymentError::InvalidAmount { .. })));
}

#[test]
fn test_no_valid_schedule_rejected() {
    let mut lsp = test_lsp();
    lsp.opening_fee_params_list[0].valid_until = "2001-01-01T00:00:00Z".to_string();
    let peers: Vec<Peer> = vec![];
    let r = prepare_invoice(test_request(500_000_000), &lsp, &peers, 100, NOW);
    assert!(matches!(r, Err(ReceivePaymentError::Generic { .. })));
}

#[test]
fn test_caller_schedule_overrides_lsp() {
    let mut req = test_request(500_000_000);
    let mut f = test_schedule();
    f.min_msat = 7_000_000;
    req.opening_fee_params = Some(f.clone());
    let peers: Vec<Peer> = vec![];
    let r = prepare_invoice(req, &test_lsp(), &peers, 100, NOW).unwrap();
    assert_eq!(r.channel_fees_msat, Some(7_000_000));
    assert_eq!(r.channel_opening_fee_params, Some(f));
}

fn hint_ctx(open_channel_needed: bool, destination: u64) -> PreparedInvoiceContext {
    PreparedInvoiceContext {
        lsp_id: "lsp-1".to_string(),
        lsp_pubkey: "02aa".to_string(),
        short_channel_id: 77,
        destination_invoice_amount_msat: destination,
        channel_opening_fee_params: Some(test_schedule()),
        open_channel_needed,
        channel_fees_msat: Some(1_000),
    }
}

#[test]
fn test_hint_added_on_channel_open() {
    let req = test_request(12_000);
    let ctx = hint_ctx(true, 11_000);
    let lsp = test_lsp();
    let r = check_lsp_hints(INVOICE_110N.to_string(), &req, &ctx, &lsp).unwrap();
    let u = r.expect("a rewritten invoice");
    assert_eq!(u.amount_msat, 12_000);
    assert_eq!(u.source_bolt11, INVOICE_110N);
    // The payer must route through the pending channel only.
    assert_eq!(u.routing_hints.len(), 1);
    let hop = &u.routing_hints[0].hops[0];
    assert_eq!(hop.src_node_id, "02aa");
    assert_eq!(hop.short_channel_id, 77);
    assert_eq!(hop.fees_base_msat, 1000);
    assert_eq!(hop.fees_proportional_millionths, 3000);
    assert_eq!(hop.cltv_expiry_delta, 42);
    assert_eq!(hop.htlc_minimum_msat, Some(600));
    assert_eq!(hop.htlc_maximum_msat, None);
}

#[test]
fn test_hint_added_when_invoice_lacks_one() {
    // No channel open needed, amounts agree, but the invoice carries no
    // hint through the LSP: one is merged in.
    let req = test_request(11_000);
    let ctx = hint_ctx(false, 11_000);
    let lsp = test_lsp();
    let r = check_lsp_hints(INVOICE_110N.to_string(), &req, &ctx, &lsp).unwrap();
    let u = r.expect("a rewritten invoice");
    assert_eq!(u.amount_msat, 11_000);
    assert_eq!(u.routing_hints.len(), 1);
}

#[test]
fn test_registration_payload_on_channel_open() {
    let req = test_request(12_000);
    let ctx = hint_ctx(true, 11_000);
    let parsed = parse_invoice(INVOICE_110N).unwrap();
    let pi = check_payment_registration(INVOICE_110N, &req, &ctx)
        .unwrap()
        .expect("a registration payload");
    assert_eq!(pi.payment_hash, hex_decode(&parsed.payment_hash).unwrap());
    assert_eq!(pi.payment_secret, parsed.payment_secret);
    assert_eq!(pi.destination, hex_decode(&parsed.payee_pubkey).unwrap());
    assert_eq!(pi.incoming_amount_msat, 12_000);
    assert_eq!(pi.outgoing_amount_msat, 11_000);
    assert_eq!(pi.opening_fee_params, Some(test_schedule()));
}

#[test]
fn test_no_registration_without_channel_open() {
    let req = test_request(11_000);
    let ctx = hint_ctx(false, 11_000);
    let r = check_payment_registration(INVOICE_110N, &req, &ctx).unwrap();
    assert!(r.is_none());
}

#[test]
fn test_registration_requires_fee_params() {
    let req = test_request(12_000);
    let mut ctx = hint_ctx(true, 11_000);
    ctx.channel_opening_fee_params = None;
    let r = check_payment_registration(INVOICE_110N, &req, &ctx);
    assert!(matches!(r, Err(ReceivePaymentError::Generic { .. })));
}

#[test]
fn test_schedule_validity_uses_expiry() {
    let lsp = test_lsp();
    // Valid at a time well before the schedule expiry.
    assert!(lsp.cheapest_open_channel_fee(3600, NOW).is_ok());
    // The schedule expires before a deadline in 2031.
    let late: u64 = 1_924_992_000;
    assert!(lsp.cheapest_open_channel_fee(3600, late).is_err());
}
