use sdk_core::hexutil::hex_encode;
use sdk_core::models::{
    LnPaymentDetails, MessageSuccessActionData, OpeningFeeParams, Payment, PaymentDetails,
    PaymentStatus, PaymentType, SuccessActionProcessed, SwapInfo, SwapStatus,
};
use sdk_core::persist::{ListPaymentsRequest, PaymentTypeFilter};
use sdk_core::storage::SqliteStorage;

#[test]
fn test_ln_transactions() {
    let lnurl_metadata = "{'key': 'sample-metadata-val'}";
    let test_ln_address = "test@ln.adddress.com";
    let sa = SuccessActionProcessed::Message {
        data: MessageSuccessActionData { message: "test message".to_string() },
    };

    let payment_hash_with_lnurl_success_action = "123";
    let payment_hash_with_lnurl_withdraw = "124";
    let payment_hash_with_swap_info: Vec<u8> = vec![234, 12, 53, 124];
    let lnurl_withdraw_url = "https://test.lnurl.withdraw.link";
    let swap_info = SwapInfo {
        bitcoin_address: "123".to_string(),
        created_at: 1234567,
        lock_height: 7654321,
        payment_hash: payment_hash_with_swap_info.clone(),
        preimage: vec![1, 2, 3],
        private_key: vec![3, 2, 1],
        public_key: vec![1, 3, 2],
        swapper_public_key: vec![2, 1, 3],
        script: vec![2, 3, 1],
        bolt11: Some("swap_bolt11".to_string()),
        paid_sats: 50,
        confirmed_sats: 50,
        unconfirmed_sats: 0,
        status: SwapStatus::Expired,
        refund_tx_ids: vec![],
        unconfirmed_tx_ids: vec![],
        confirmed_tx_ids: vec![],
        min_allowed_deposit: 5_000,
        max_allowed_deposit: 1_000_000,
        last_redeem_error: None,
        channel_opening_fees: Some(OpeningFeeParams {
            min_msat: 5_000_000,
            proportional: 50,
            valid_until: "date".to_string(),
            max_idle_time: 12345,
            max_client_to_self_delay: 234,
            promise: "promise".to_string(),
        }),
    };
    let txs = [
        Payment {
            id: payment_hash_with_lnurl_success_action.to_string(),
            payment_type: PaymentType::Sent,
            payment_time: 1001,
            amount_msat: 100,
            fee_msat: 20,
            status: PaymentStatus::Complete,
            description: None,
            details: PaymentDetails::Ln {
                data: LnPaymentDetails {
                    payment_hash: payment_hash_with_lnurl_success_action.to_string(),
                    label: "label".to_string(),
                    destination_pubkey: "pubey".to_string(),
                    payment_preimage: "payment_preimage".to_string(),
                    keysend: true,
                    bolt11: "bolt11".to_string(),
                    lnurl_success_action: Some(sa.clone()),
                    lnurl_metadata: Some(lnurl_metadata.to_string()),
                    ln_address: Some(test_ln_address.to_string()),
                    lnurl_withdraw_endpoint: None,
                    swap_info: None,
                },
            },
        },
        Payment {
            id: payment_hash_with_lnurl_withdraw.to_string(),
            payment_type: PaymentType::Received,
            payment_time: 1000,
            amount_msat: 100,
            fee_msat: 20,
            status: PaymentStatus::Complete,
            description: Some("desc".to_string()),
            details: PaymentDetails::Ln {
                data: LnPaymentDetails {
                    payment_hash: payment_hash_with_lnurl_withdraw.to_string(),
                    label: "label".to_string(),
                    destination_pubkey: "pubey".to_string(),
                    payment_preimage: "payment_preimage".to_string(),
                    keysend: true,
                    bolt11: "bolt11".to_string(),
                    lnurl_success_action: None,
                    lnurl_metadata: None,
                    ln_address: None,
                    lnurl_withdraw_endpoint: Some(lnurl_withdraw_url.to_string()),
                    swap_info: None,
                },
            },
        },
        Payment {
            id: hex_encode(&payment_hash_with_swap_info),
            payment_type: PaymentType::Received,
            payment_time: 999,
            amount_msat: 50_000,
            fee_msat: 20,
            status: PaymentStatus::Complete,
            description: Some("desc".to_string()),
            details: PaymentDetails::Ln {
                data: LnPaymentDetails {
                    payment_hash: hex_encode(&payment_hash_with_swap_info),
                    label: "label".to_string(),
                    destination_pubkey: "pubkey".to_string(),
                    payment_preimage: "payment_preimage".to_string(),
                    keysend: false,
                    bolt11: "swap_bolt11".to_string(),
                    lnurl_success_action: None,
                    lnurl_metadata: None,
                    ln_address: None,
                    lnurl_withdraw_endpoint: None,
                    swap_info: Some(swap_info.clone()),
                },
            },
        },
    ];
    let failed_txs = [Payment {
        id: "125".to_string(),
        payment_type: PaymentType::Sent,
        payment_time: 2000,
        amount_msat: 1000,
        fee_msat: 0,
        status: PaymentStatus::Failed,
        description: Some("desc".to_string()),
        details: PaymentDetails::Ln {
            data: LnPaymentDetails {
                payment_hash: "125".to_string(),
                label: "label".to_string(),
                destination_pubkey: "pubey".to_string(),
                payment_preimage: "payment_preimage".to_string(),
                keysend: true,
                bolt11: "bolt11".to_string(),
                lnurl_success_action: None,
                lnurl_metadata: None,
                ln_address: None,
                lnurl_withdraw_endpoint: None,
                swap_info: None,
            },
        },
    }];
    let storage = SqliteStorage::new(":memory:").unwrap();
    storage.init().unwrap();
    storage.insert_or_update_payments(&txs).unwrap();
    storage.insert_or_update_payments(&failed_txs).unwrap();
    storage
        .insert_payment_external_info(
            payment_hash_with_lnurl_success_action,
            Some(&sa),
            Some(lnurl_metadata.to_string()),
            Some(test_ln_address.to_string()),
            None,
            None,
        )
        .unwrap();
    storage
        .insert_payment_external_info(
            payment_hash_with_lnurl_withdraw,
            None,
            None,
            None,
            Some(lnurl_withdraw_url.to_string()),
            None,
        )
        .unwrap();
    storage.insert_swap(swap_info.clone()).unwrap();
    storage
        .update_swap_bolt11(swap_info.bitcoin_address.clone(), swap_info.bolt11.clone().unwrap())
        .unwrap();

    // retrieve all
    let retrieve_txs = storage.list_payments(ListPaymentsRequest::default()).unwrap();
    assert_eq!(retrieve_txs.len(), 3);
    assert_eq!(retrieve_txs, txs);

    //test only sent
    let retrieve_txs = storage
        .list_payments(ListPaymentsRequest {
            filters: Some(vec![
                PaymentTypeFilter::Sent,
                PaymentTypeFilter::ClosedChannel,
            ]),
            ..Default::default()
        })
        .unwrap();
    assert_eq!(retrieve_txs.len(), 1);
    assert_eq!(retrieve_txs[0], txs[0]);
    assert!(
        matches!(&retrieve_txs[0].details, PaymentDetails::Ln { data: LnPaymentDetails { lnurl_success_action, .. } } if lnurl_success_action == &Some(sa))
    );
    assert!(
        matches!(&retrieve_txs[0].details, PaymentDetails::Ln { data: LnPaymentDetails { ln_address, .. } } if ln_address == &Some(test_ln_address.to_string()))
    );

    //test only received
    let retrieve_txs = storage
        .list_payments(ListPaymentsRequest {
            filters: Some(vec![PaymentTypeFilter::Received]),
            ..Default::default()
        })
        .unwrap();
    assert_eq!(retrieve_txs.len(), 2);
    assert_eq!(retrieve_txs[0], txs[1]);
    assert_eq!(retrieve_txs[1], txs[2]);
    assert!(
        matches!(&retrieve_txs[1].details, PaymentDetails::Ln { data: LnPaymentDetails { swap_info: swap, .. } } if swap == &Some(swap_info))
    );

    let max_ts = storage.last_payment_timestamp().unwrap();
    assert_eq!(max_ts, 2000);

    storage.insert_or_update_payments(&txs).unwrap();
    let retrieve_txs = storage.list_payments(ListPaymentsRequest::default()).unwrap();
    assert_eq!(retrieve_txs.len(), 3);
    assert_eq!(retrieve_txs, txs);

    storage.insert_open_channel_payment_info("123", 150).unwrap();
    let retrieve_txs = storage.list_payments(ListPaymentsRequest::default()).unwrap();
    assert_eq!(retrieve_txs[0].fee_msat, 50);

    // test all with failures
    let retrieve_txs = storage
        .list_payments(ListPaymentsRequest { include_failures: Some(true), ..Default::default() })
        .unwrap();
    assert_eq!(retrieve_txs.len(), 4);

    // test sent with failures
    let retrieve_txs = storage
        .list_payments(ListPaymentsRequest {
            filters: Some(vec![
                PaymentTypeFilter::Sent,
                PaymentTypeFilter::ClosedChannel,
            ]),
            include_failures: Some(true),
            ..Default::default()
        })
        .unwrap();
    assert_eq!(retrieve_txs.len(), 2);

    // test limit
    let retrieve_txs = storage
        .list_payments(ListPaymentsRequest {
            include_failures: Some(false),
            limit: Some(1),
            ..Default::default()
        })
        .unwrap();
    assert_eq!(retrieve_txs.len(), 1);

    // test offset
    let retrieve_txs = storage
        .list_payments(ListPaymentsRequest {
            include_failures: Some(false),
            offset: Some(1),
            limit: Some(1),
            ..Default::default()
        })
        .unwrap();
    assert_eq!(retrieve_txs.len(), 1);
    assert_eq!(retrieve_txs[0].id, payment_hash_with_lnurl_withdraw);
}

#[test]
fn test_payment_by_hash_lookup() {
    let storage = SqliteStorage::new(":memory:").unwrap();
    storage.init().unwrap();
    let payment = Payment {
        id: "77".to_string(),
        payment_type: PaymentType::Sent,
        payment_time: 10,
        amount_msat: 5,
        fee_msat: 1,
        status: PaymentStatus::Pending,
        description: None,
        details: PaymentDetails::Ln {
            data: LnPaymentDetails {
                payment_hash: "77".to_string(),
                label: String::new(),
                destination_pubkey: "pk".to_string(),
                payment_preimage: String::new(),
                keysend: false,
                bolt11: "bolt11".to_string(),
                lnurl_success_action: None,
                lnurl_metadata: None,
                ln_address: None,
                lnurl_withdraw_endpoint: None,
                swap_info: None,
            },
        },
    };
    storage.insert_or_update_payments(&[payment.clone()]).unwrap();
    let got = storage.get_payment_by_hash(&"77".to_string()).unwrap();
    assert_eq!(got, Some(payment));
    // Pending payments are not completed payments.
    let got = storage.get_completed_payment_by_hash(&"77".to_string()).unwrap();
    assert_eq!(got, None);
}
