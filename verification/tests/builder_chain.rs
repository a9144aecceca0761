use sdk_core::models::{
    LspInformation, NodeState, OpeningFeeParams, ReceivePaymentRequest,
};
use sdk_core::receiver::PaymentReceiverBuilder;

const INVOICE_110N: &str = "lnbc110n1p38q3gtpp5ypz09jrd8p993snjwnm68cph4ftwp22le34xd4r8ftspwshxhmnsdqqxqyjw5qcqpxsp5htlg8ydpywvsa7h3u4hdn77ehs4z4e844em0apjyvmqfkzqhhd2q9qgsqqqyssqszpxzxt9uuqzymr7zxcdccj5g69s8q7zzjs7sgxn9ejhnvdh6gqjcy22mss2yexunagm5r2gqczh8k24cwrqml3njskm548aruhpwssq9nvrvz";

fn node_state(inbound_liquidity_msats: u64) -> NodeState {
    NodeState {
        id: "02ab".to_string(),
        block_height: 1,
        channels_balance_msat: 0,
        onchain_balance_msat: 0,
        utxos: vec![],
        max_payable_msat: 0,
        max_receivable_msat: 0,
        max_single_payment_amount_msat: 0,
        max_chan_reserve_msats: 0,
        connected_peers: vec![],
        inbound_liquidity_msats,
    }
}

fn lsp() -> LspInformation {
    LspInformation {
        id: "lsp-1".to_string(),
        pubkey: "02aa".to_string(),
        lsp_pubkey: vec![0x02, 0xaa],
        base_fee_msat: 1000,
        fee_rate_ppm: 3000,
        time_lock_delta: 42,
        min_htlc_msat: 600,
        opening_fee_params_list: vec![OpeningFeeParams {
            min_msat: 5_000,
            proportional: 50,
            valid_until: "2030-01-01T00:00:00Z".to_string(),
            max_idle_time: 0,
            max_client_to_self_delay: 0,
            promise: "promise".to_string(),
        }],
    }
}

#[test]
fn test_builder_chain_with_channel_open() {
    let req = ReceivePaymentRequest {
        amount_msat: 20_000,
        description: "coffee".to_string(),
        preimage: None,
        opening_fee_params: None,
        use_description_hash: None,
        expiry: Some(3600),
        cltv: None,
    };
    // Inbound liquidity 11_000 < 20_000: a channel open is negotiated.
    let (create_invoice, hint_builder) =
        PaymentReceiverBuilder::prepare_invoice(req, lsp(), &node_state(11_000), None, 1_700_000_000)
            .unwrap();
    // fee = max(5_000, 20_000 * 50 / 1_000_000 = 1) = 5_000.
    assert_eq!(create_invoice.amount_msat, 15_000);
    assert_eq!(create_invoice.description, "coffee");
    assert_eq!(create_invoice.expiry, Some(3600));
    assert_eq!(create_invoice.cltv, Some(144));
    assert!(hint_builder.open_channel_needed);
    assert_eq!(hint_builder.req_amount_msat, 20_000);
    assert_eq!(hint_builder.channel_fees_msat, Some(5_000));

    // The node created and signed an invoice over the destination amount;
    // the hint stage rewrites it to carry the full requested amount.
    let ctx = hint_builder.check_routing_hint(INVOICE_110N).unwrap();
    let rewritten = ctx.new_invoice_with_hint.as_ref().expect("a rewritten invoice");
    assert_eq!(rewritten.amount_msat, 20_000);
    assert_eq!(rewritten.routing_hints.len(), 1);
    assert_eq!(rewritten.routing_hints[0].hops[0].src_node_id, "02aa");

    // After re-signing, the final stage yields the LSP registration payload.
    let done = ctx.next_builder.finalize(INVOICE_110N).unwrap();
    assert_eq!(done.req_amount_msat, 20_000);
    assert_eq!(done.opening_fee_msat, Some(5_000));
    let rp = done.register_payment.expect("a registration payload");
    assert_eq!(rp.incoming_amount_msat, 20_000);
    assert_eq!(rp.outgoing_amount_msat, 15_000);
    assert_eq!(rp.lsp_id, "lsp-1");
    assert_eq!(rp.lsp_pubkey, vec![0x02, 0xaa]);
}

#[test]
fn test_builder_chain_without_channel_open() {
    let req = ReceivePaymentRequest {
        amount_msat: 11_000,
        description: String::new(),
        preimage: None,
        opening_fee_params: None,
        use_description_hash: None,
        expiry: None,
        cltv: None,
    };
    let (create_invoice, hint_builder) = PaymentReceiverBuilder::prepare_invoice(
        req,
        lsp(),
        &node_state(1_000_000),
        Some(vec![]),
        1_700_000_000,
    )
    .unwrap();
    assert_eq!(create_invoice.amount_msat, 11_000);
    assert!(!hint_builder.open_channel_needed);

    let ctx = hint_builder.check_routing_hint(INVOICE_110N).unwrap();
    // The invoice lacks an LSP hint, so one is merged in even though the
    // amount is already right.
    assert!(ctx.new_invoice_with_hint.is_some());

    // No channel open: nothing to register.
    let done = ctx.next_builder.finalize(INVOICE_110N).unwrap();
    assert!(done.register_payment.is_none());
    assert_eq!(done.ln_invoice.amount_msat, Some(11_000));
}
