use bitcoin::hashes::sha256;
use bitcoin::secp256k1::{Secp256k1, SecretKey};
use lightning_invoice::{
    Currency, InvoiceBuilder, PaymentSecret, RouteHint, RouteHintHop, RoutingFees,
};
use sdk_core::models::{LspInformation, ReceivePaymentRequest};
use sdk_core::receive::{check_lsp_hints, PreparedInvoiceContext};

// Signs a 25_000 msat invoice that already carries a route hint through
// the node of `lsp_key`.
fn signed_invoice_with_hint(secp: &Secp256k1<bitcoin::secp256k1::All>, lsp_key: &SecretKey) -> String {
    let payee_key = SecretKey::from_slice(&[0x11; 32]).unwrap();
    let hint = RouteHint(vec![RouteHintHop {
        src_node_id: lsp_key.public_key(secp),
        short_channel_id: 42,
        fees: RoutingFees { base_msat: 1000, proportional_millionths: 3000 },
        cltv_expiry_delta: 42,
        htlc_minimum_msat: Some(600),
        htlc_maximum_msat: None,
    }]);
    let invoice = InvoiceBuilder::new(Currency::Bitcoin)
        .description("hinted".to_string())
        .payment_hash(<sha256::Hash as bitcoin::hashes::Hash>::from_slice(&[0x22; 32]).unwrap())
        .payment_secret(PaymentSecret([0x33; 32]))
        .amount_milli_satoshis(25_000)
        .duration_since_epoch(std::time::Duration::from_secs(1_700_000_000))
        .min_final_cltv_expiry_delta(144)
        .private_route(hint)
        .build_signed(|hash| secp.sign_ecdsa_recoverable(hash, &payee_key))
        .unwrap();
    invoice.to_string()
}

#[test]
fn test_hint_injection_idempotent() {
    let secp = Secp256k1::new();
    let lsp_key = SecretKey::from_slice(&[0x55; 32]).unwrap();
    let lsp_pubkey_hex = lsp_key.public_key(&secp).to_string();
    let bolt11 = signed_invoice_with_hint(&secp, &lsp_key);

    let req = ReceivePaymentRequest {
        amount_msat: 25_000,
        description: String::new(),
        preimage: None,
        opening_fee_params: None,
        use_description_hash: None,
        expiry: None,
        cltv: None,
    };
    let ctx = PreparedInvoiceContext {
        lsp_id: "lsp-1".to_string(),
        lsp_pubkey: lsp_pubkey_hex.clone(),
        short_channel_id: 42,
        destination_invoice_amount_msat: 25_000,
        channel_opening_fee_params: None,
        open_channel_needed: false,
        channel_fees_msat: None,
    };
    let lsp_info = LspInformation {
        id: "lsp-1".to_string(),
        pubkey: lsp_pubkey_hex,
        lsp_pubkey: vec![0x02],
        base_fee_msat: 1000,
        fee_rate_ppm: 3000,
        time_lock_delta: 42,
        min_htlc_msat: 600,
        opening_fee_params_list: vec![],
    };

    // The invoice already carries the LSP hint and the full amount: the
    // injector leaves it alone — on this call and on the repetition.
    let first = check_lsp_hints(bolt11.clone(), &req, &ctx, &lsp_info).unwrap();
    assert!(first.is_none());
    let second = check_lsp_hints(bolt11, &req, &ctx, &lsp_info).unwrap();
    assert!(second.is_none());
}
