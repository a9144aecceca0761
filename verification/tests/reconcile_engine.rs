use sdk_core::error::NodeError;
use sdk_core::models::{ChannelState, PaymentStatus, PaymentType};
use sdk_core::reconcile::{
    pull_changed, ChannelListing, ClosedChannelListing, Getinfo, InvoiceListing,
    InvoiceListingStatus, ListClosedChannels, ListFunds, ListFundsOutput, ListInvoices, ListPays,
    ListPeers, PayListing, PayListingStatus, PeerListing, MAX_INBOUND_LIQUIDITY_MSAT,
    MAX_PAYMENT_AMOUNT_MSAT,
};

fn channel(state: ChannelState, spendable: u64, receivable: u64, txid: u8) -> ChannelListing {
    ChannelListing {
        state,
        spendable_msat: Some(spendable),
        receivable_msat: Some(receivable),
        short_channel_id: Some("1x2x3".to_string()),
        alias_remote: None,
        funding_txid: Some(vec![txid]),
    }
}

fn listings() -> (Getinfo, ListFunds, ListClosedChannels, ListPeers, ListInvoices, ListPays) {
    let info = Getinfo { id: vec![0x02, 0xab], blockheight: 123456 };
    let funds = ListFunds {
        outputs: vec![
            ListFundsOutput {
                txid: vec![9, 9],
                output: 0,
                amount_msat: Some(700),
                address: Some("bc1qaddr".to_string()),
                reserved: false,
            },
            ListFundsOutput {
                txid: vec![8, 8],
                output: 1,
                amount_msat: Some(300),
                address: None,
                reserved: true,
            },
        ],
    };
    let closed = ListClosedChannels {
        closedchannels: vec![
            // Funded by the same transaction as a currently open channel:
            // a reopened channel must not be reported again.
            ClosedChannelListing {
                funding_txid: vec![1],
                short_channel_id: Some("5x6x7".to_string()),
                alias_remote: None,
            },
            ClosedChannelListing {
                funding_txid: vec![4],
                short_channel_id: Some("8x9x1".to_string()),
                alias_remote: None,
            },
        ],
    };
    let peers = ListPeers {
        peers: vec![
            PeerListing {
                id: vec![0x02, 0xaa],
                connected: true,
                channels: vec![
                    channel(ChannelState::Opened, 1000, 2500, 1),
                    channel(ChannelState::PendingClose, 500, 9000, 2),
                ],
            },
            PeerListing {
                id: vec![0x02, 0xbb],
                connected: false,
                channels: vec![channel(ChannelState::Opened, 250, 400, 3)],
            },
        ],
    };
    let invoices = ListInvoices {
        invoices: vec![
            InvoiceListing {
                label: "inv1".to_string(),
                description: Some("paid after since".to_string()),
                payment_hash: vec![0xaa],
                status: InvoiceListingStatus::Paid,
                amount_received_msat: Some(1500),
                paid_at: Some(100),
                payment_preimage: Some(vec![0x01]),
                bolt11: Some("lnbc1".to_string()),
            },
            InvoiceListing {
                label: "inv2".to_string(),
                description: None,
                payment_hash: vec![0xab],
                status: InvoiceListingStatus::Unpaid,
                amount_received_msat: None,
                paid_at: Some(150),
                payment_preimage: None,
                bolt11: None,
            },
            InvoiceListing {
                label: "inv3".to_string(),
                description: None,
                payment_hash: vec![0xac],
                status: InvoiceListingStatus::Paid,
                amount_received_msat: Some(10),
                paid_at: Some(5),
                payment_preimage: None,
                bolt11: None,
            },
        ],
    };
    let pays = ListPays {
        pays: vec![
            PayListing {
                payment_hash: vec![0xba],
                status: PayListingStatus::Complete,
                amount_msat: Some(900),
                amount_sent_msat: Some(910),
                created_at: 120,
                destination: Some(vec![0x03]),
                preimage: Some(vec![0x02]),
                bolt11: Some("lnbc2".to_string()),
            },
            PayListing {
                payment_hash: vec![0xbb],
                status: PayListingStatus::Failed,
                amount_msat: Some(50),
                amount_sent_msat: Some(50),
                created_at: 10,
                destination: None,
                preimage: None,
                bolt11: None,
            },
        ],
    };
    (info, funds, closed, peers, invoices, pays)
}

#[test]
fn test_reconciliation_balances() {
    let (info, funds, closed, peers, invoices, pays) = listings();
    let sync = pull_changed(info, funds, closed, peers, invoices, 50, pays).unwrap();
    let ns = &sync.node_state;
    assert_eq!(ns.id, "02ab");
    assert_eq!(ns.block_height, 123456);
    // Only the two fully-open channels count: 1000 + 250.
    assert_eq!(ns.channels_balance_msat, 1250);
    assert_eq!(ns.max_payable_msat, 1250);
    // Largest receivable over a single open channel: max(2500, 400).
    assert_eq!(ns.inbound_liquidity_msats, 2500);
    // Only the unreserved output counts.
    assert_eq!(ns.onchain_balance_msat, 700);
    assert_eq!(ns.utxos.len(), 2);
    assert_eq!(ns.utxos[0].address, "bc1qaddr");
    assert!(ns.utxos[1].reserved);
    assert_eq!(ns.max_receivable_msat, MAX_INBOUND_LIQUIDITY_MSAT - 1250);
    assert_eq!(ns.max_single_payment_amount_msat, MAX_PAYMENT_AMOUNT_MSAT);
    assert_eq!(ns.max_chan_reserve_msats, 0);
    assert_eq!(ns.connected_peers, vec!["02aa".to_string()]);
}

#[test]
fn test_reconciliation_deterministic() {
    let (info, funds, closed, peers, invoices, pays) = listings();
    let s1 = pull_changed(info, funds, closed, peers, invoices, 50, pays).unwrap();
    let (info, funds, closed, peers, invoices, pays) = listings();
    let s2 = pull_changed(info, funds, closed, peers, invoices, 50, pays).unwrap();
    assert_eq!(s1, s2);
}

#[test]
fn test_reopened_channel_not_reported_twice() {
    let (info, funds, closed, peers, invoices, pays) = listings();
    let sync = pull_changed(info, funds, closed, peers, invoices, 50, pays).unwrap();
    // Three current channels, then only the closed channel whose funding
    // transaction matches no current channel.
    assert_eq!(sync.channels.len(), 4);
    assert_eq!(sync.channels[3].state, ChannelState::Closed);
    assert_eq!(sync.channels[3].funding_txid, Some("04".to_string()));
    assert!(sync
        .channels
        .iter()
        .all(|c| !(c.state == ChannelState::Closed && c.funding_txid == Some("01".to_string()))));
}

#[test]
fn test_history_delta_selection() {
    let (info, funds, closed, peers, invoices, pays) = listings();
    let sync = pull_changed(info, funds, closed, peers, invoices, 50, pays).unwrap();
    // One invoice paid after the watermark, one pay created after it.
    assert_eq!(sync.payments.len(), 2);
    let received = &sync.payments[0];
    assert_eq!(received.payment_type, PaymentType::Received);
    assert_eq!(received.id, "aa");
    assert_eq!(received.payment_time, 100);
    assert_eq!(received.amount_msat, 1500);
    assert_eq!(received.fee_msat, 0);
    assert_eq!(received.status, PaymentStatus::Complete);
    let sent = &sync.payments[1];
    assert_eq!(sent.payment_type, PaymentType::Sent);
    assert_eq!(sent.id, "ba");
    assert_eq!(sent.payment_time, 120);
    assert_eq!(sent.amount_msat, 900);
    assert_eq!(sent.fee_msat, 10);
    assert_eq!(sent.status, PaymentStatus::Complete);
}

#[test]
fn test_bad_pay_listing_aborts_snapshot() {
    let (info, funds, closed, peers, invoices, mut pays) = listings();
    // Sent amount below the delivered amount: the fee would be negative.
    pays.pays[0].amount_sent_msat = Some(100);
    let r = pull_changed(info, funds, closed, peers, invoices, 50, pays);
    assert!(matches!(r, Err(NodeError::Generic { .. })));
}
