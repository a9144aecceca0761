use sdk_core::error::SendPaymentError;
use sdk_core::hexutil::{hex_decode, hex_encode};
use sdk_core::models::{OpeningFeeParams, SendPaymentRequest};
use sdk_core::persist::{
    filter_to_where_clause, parse_payment_type, payment_type_to_string, PaymentTypeFilter,
};
use sdk_core::models::PaymentType;
use sdk_core::receiver::{LspRegisterPaymentParams, NodeApiRequestBuilder};
use sdk_core::rfc3339::parse_rfc3339_utc;
use sdk_core::scid::parse_short_channel_id;
use sdk_core::send::send_payment;
use sdk_core::strnum::{push_i64_dec, u64_to_dec_string};

const INVOICE_WITH_AMOUNT: &str = "lnbc110n1p38q3gtpp5ypz09jrd8p993snjwnm68cph4ftwp22le34xd4r8ftspwshxhmnsdqqxqyjw5qcqpxsp5htlg8ydpywvsa7h3u4hdn77ehs4z4e844em0apjyvmqfkzqhhd2q9qgsqqqyssqszpxzxt9uuqzymr7zxcdccj5g69s8q7zzjs7sgxn9ejhnvdh6gqjcy22mss2yexunagm5r2gqczh8k24cwrqml3njskm548aruhpwssq9nvrvz";

// An early BOLT11 example invoice: it predates payment secrets, so a
// modern parser refuses it.
const INVOICE_WITHOUT_SECRET: &str = "lnbc1pvjluezpp5qqqsyqcyq5rqwzqfqqqsyqcyq5rqwzqfqqqsyqcyq5rqwzqfqypqdpl2pkx2ctnv5sxxmmwwd5kgetjypeh2ursdae8g6twvus8g6rfwvs8qun0dfjkxaq8rkx3yf5tcsyz3d73gafnh3cax9rn449d9p5uxz9ezhhypd0elx87sjle52x86fux2ypatgddc6k63n7erqz25le42c4u4ecky03ylcqca784w";

#[test]
fn test_hex_round_trip() {
    assert_eq!(hex_encode(&[0xde, 0xad, 0x01]), "dead01");
    assert_eq!(hex_encode(&[]), "");
    assert_eq!(hex_decode("dead01"), Some(vec![0xde, 0xad, 0x01]));
    assert_eq!(hex_decode("DEAD01"), Some(vec![0xde, 0xad, 0x01]));
    assert_eq!(hex_decode(""), Some(vec![]));
    assert_eq!(hex_decode("abc"), None);
    assert_eq!(hex_decode("zz"), None);
}

#[test]
fn test_short_channel_id_parsing() {
    assert_eq!(
        parse_short_channel_id("10x20x3").unwrap(),
        (10u64 << 40) | (20u64 << 16) | 3
    );
    assert_eq!(parse_short_channel_id("1x0x0").unwrap(), 1u64 << 40);
    assert!(parse_short_channel_id("1x2").is_err());
    assert!(parse_short_channel_id("1x2x3x4").is_err());
    assert!(parse_short_channel_id("ax2x3").is_err());
    assert!(parse_short_channel_id("").is_err());
}

#[test]
fn test_rfc3339_parsing() {
    assert_eq!(parse_rfc3339_utc("1970-01-01T00:00:00Z"), Some(0));
    assert_eq!(parse_rfc3339_utc("2023-08-03T00:30:35Z"), Some(1691022635));
    assert_eq!(parse_rfc3339_utc("2023-08-03T00:30:35.117Z"), Some(1691022635));
    assert_eq!(parse_rfc3339_utc("2024-02-29T00:00:00Z"), Some(1709164800));
    assert_eq!(parse_rfc3339_utc("2023-02-29T00:00:00Z"), None);
    assert_eq!(parse_rfc3339_utc("2023-13-01T00:00:00Z"), None);
    assert_eq!(parse_rfc3339_utc("1969-12-31T23:59:59Z"), None);
    assert_eq!(parse_rfc3339_utc("date"), None);
    assert_eq!(parse_rfc3339_utc("2023-08-03T00:30:35"), None);
}

#[test]
fn test_decimal_rendering() {
    assert_eq!(u64_to_dec_string(0), "0");
    assert_eq!(u64_to_dec_string(9051), "9051");
    assert_eq!(u64_to_dec_string(u64::MAX), "18446744073709551615");
    let mut s = String::new();
    push_i64_dec(&mut s, -42);
    assert_eq!(s, "-42");
}

#[test]
fn test_where_clause_building() {
    assert_eq!(filter_to_where_clause(None, None, None, None), "where status != 2");
    assert_eq!(filter_to_where_clause(None, None, None, Some(true)), "");
    assert_eq!(
        filter_to_where_clause(None, Some(100), Some(-5), Some(true)),
        "where payment_time >= 100 and payment_time <= -5"
    );
    assert_eq!(
        filter_to_where_clause(
            Some(vec![
                PaymentTypeFilter::ClosedChannel,
                PaymentTypeFilter::Sent,
                PaymentTypeFilter::Sent,
            ]),
            None,
            None,
            Some(false),
        ),
        "where status != 2 and payment_type in ('sent', 'closed_channel')"
    );
}

#[test]
fn test_payment_type_text_round_trip() {
    for t in [PaymentType::Sent, PaymentType::Received, PaymentType::ClosedChannel] {
        let s = payment_type_to_string(t);
        assert_eq!(parse_payment_type(&s), Some(t));
    }
    assert_eq!(parse_payment_type("other"), None);
}

#[test]
fn test_channel_fee_computation() {
    let f = OpeningFeeParams {
        min_msat: 2_000,
        proportional: 7_500,
        valid_until: "2030-01-01T00:00:00Z".to_string(),
        max_idle_time: 0,
        max_client_to_self_delay: 0,
        promise: String::new(),
    };
    // 1_000_000 * 7_500 / 1_000_000 = 7_500 over the minimum.
    assert_eq!(f.get_channel_fees_msat_for(1_000_000), 7_500);
    // 100_000 * 7_500 / 1_000_000 = 750, floored at the minimum.
    assert_eq!(f.get_channel_fees_msat_for(100_000), 2_000);
    assert_eq!(f.valid_until_epoch_seconds(), Some(1893456000));
}

#[test]
fn test_send_payment_amount_rules() {
    // The invoice carries an amount: none may be provided.
    let r = send_payment(SendPaymentRequest {
        bolt11: INVOICE_WITH_AMOUNT.to_string(),
        amount_msat: Some(5_000),
    });
    assert!(matches!(r, Err(SendPaymentError::InvalidAmount { .. })));
    let r = send_payment(SendPaymentRequest {
        bolt11: INVOICE_WITH_AMOUNT.to_string(),
        amount_msat: None,
    });
    assert_eq!(r.unwrap().amount_msat, Some(11_000));

    // Unparsable invoices are rejected before any amount rule applies.
    let r = send_payment(SendPaymentRequest {
        bolt11: INVOICE_WITHOUT_SECRET.to_string(),
        amount_msat: None,
    });
    assert!(matches!(r, Err(SendPaymentError::ParseError { .. })));
    let r = send_payment(SendPaymentRequest {
        bolt11: "garbage".to_string(),
        amount_msat: None,
    });
    assert!(matches!(r, Err(SendPaymentError::ParseError { .. })));
}

#[test]
fn test_registration_tag_rendering() {
    let params = LspRegisterPaymentParams {
        lsp_id: "lsp".to_string(),
        lsp_pubkey: vec![2],
        payment_hash: vec![0xaa],
        payment_secret: vec![0xbb],
        destination: vec![0xcc],
        incoming_amount_msat: 10,
        outgoing_amount_msat: 9,
        opening_fee_params: OpeningFeeParams {
            min_msat: 1,
            proportional: 2,
            valid_until: "2030-01-01T00:00:00Z".to_string(),
            max_idle_time: 3,
            max_client_to_self_delay: 4,
            promise: "p".to_string(),
        },
    };
    let info = params.clone().into_payment_information("hash-of-key");
    assert_eq!(info.tag, "{\"apiKeyHash\":\"hash-of-key\"}");
    assert_eq!(info.payment_hash, vec![0xaa]);
    assert_eq!(info.incoming_amount_msat, 10);
    assert_eq!(info.outgoing_amount_msat, 9);
    assert_eq!(info.opening_fee_params, Some(params.opening_fee_params));
}

#[test]
fn test_create_invoice_record() {
    let ci = NodeApiRequestBuilder::create_invoice(
        1234,
        "desc".to_string(),
        None,
        Some(false),
        Some(3600),
        Some(144),
    );
    assert_eq!(ci.amount_msat, 1234);
    assert_eq!(ci.description, "desc");
    assert_eq!(ci.expiry, Some(3600));
    assert_eq!(ci.cltv, Some(144));
}
