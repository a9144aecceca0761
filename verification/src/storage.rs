//! The SQLite-backed store behind the payment history: thin trusted
//! wrappers around `rusqlite`, and verified assembly of payments from the
//! plain row values those wrappers hand back.

use vstd::prelude::*;
use rusqlite::OptionalExtension;
use crate::error::PersistError;
use crate::models::{
    LnPaymentDetails, ClosedChannelPaymentDetails, MessageSuccessActionData, OpeningFeeParams,
    Payment, PaymentDetails, PaymentStatus, PaymentType, SuccessActionProcessed, SwapInfo,
    UrlSuccessActionData, ChannelState,
};
use crate::persist::{
    ListPaymentsRequest, spec_payment_type_str, spec_status_code, payment_type_to_string,
    parse_payment_type, status_code, parse_status_code, swap_status_code, parse_swap_status_code,
    filter_to_where_clause,
};
use crate::strnum::push_u64_dec;

verus! {

#[verifier::external_type_specification]
#[verifier::external_body]
pub struct ExConnection(rusqlite::Connection);

/// The payment history store, one open SQLite connection.
#[derive(Debug)]
pub struct SqliteStorage {
    conn: rusqlite::Connection,
}

/// One row of the payments table.
#[derive(Clone, Debug, PartialEq)]
pub struct PaymentCoreRow {
    pub id: String,
    pub payment_type: String,
    pub payment_time: i64,
    pub amount_msat: u64,
    pub fee_msat: u64,
    pub status: i64,
    pub description: Option<String>,
}

/// One row of the payment_details table.
#[derive(Clone, Debug, PartialEq)]
pub struct PaymentDetailsRow {
    pub detail_kind: i64,
    pub ln_payment_hash: Option<String>,
    pub ln_label: Option<String>,
    pub ln_destination_pubkey: Option<String>,
    pub ln_payment_preimage: Option<String>,
    pub ln_keysend: Option<bool>,
    pub ln_bolt11: Option<String>,
    pub cc_short_channel_id: Option<String>,
    pub cc_state: Option<i64>,
    pub cc_funding_txid: Option<String>,
}

/// One row of the payments_external_info table.
#[derive(Clone, Debug, PartialEq)]
pub struct ExternalInfoRow {
    pub sa_kind: Option<i64>,
    pub sa_message: Option<String>,
    pub sa_description: Option<String>,
    pub sa_url: Option<String>,
    pub lnurl_metadata: Option<String>,
    pub ln_address: Option<String>,
    pub lnurl_withdraw_endpoint: Option<String>,
    pub failed_amount_msat: Option<u64>,
}

/// The scalar columns of a swaps row: address, times, amounts, status,
/// deposit limits and the optional invoice.
#[derive(Clone, Debug, PartialEq)]
pub struct SwapScalarsRow {
    pub bitcoin_address: String,
    pub created_at: i64,
    pub lock_height: i64,
    pub bolt11: Option<String>,
    pub paid_sats: u64,
    pub confirmed_sats: u64,
    pub unconfirmed_sats: u64,
    pub status: i64,
    pub min_allowed_deposit: i64,
    pub max_allowed_deposit: i64,
}

/// The variable columns of a swap: redeem error and fee schedule.
#[derive(Clone, Debug, PartialEq)]
pub struct SwapExtraRow {
    pub last_redeem_error: Option<String>,
    pub ofp_min_msat: Option<u64>,
    pub ofp_proportional: Option<u32>,
    pub ofp_valid_until: Option<String>,
    pub ofp_max_idle_time: Option<u32>,
    pub ofp_max_client_to_self_delay: Option<u32>,
    pub ofp_promise: Option<String>,
}

/// Relies on `rusqlite::Connection::open`: opens or creates the database
/// at `path` (":memory:" gives a fresh in-memory database).
#[verifier::external_body]
fn open_db(path: &str) -> (r: Result<rusqlite::Connection, PersistError>)
    ensures
        r is Err ==> r.unwrap_err() is Generic,
{
    rusqlite::Connection::open(path).map_err(|e| PersistError::Generic { err: format!("{e}") })
}

/// Relies on `rusqlite::Connection::execute_batch`: runs the given SQL.
#[verifier::external_body]
fn exec_sql(conn: &rusqlite::Connection, sql: &str) -> (r: Result<(), PersistError>)
    ensures
        r is Err ==> r.unwrap_err() is Generic,
{
    conn.execute_batch(sql).map_err(|e| PersistError::Generic { err: format!("{e}") })
}

/// Relies on `rusqlite::Connection::execute`: upserts one payments row.
#[verifier::external_body]
fn exec_insert_payment(
    conn: &rusqlite::Connection,
    id: &str,
    payment_type: &str,
    payment_time: i64,
    amount_msat: u64,
    fee_msat: u64,
    status: i64,
    description: Option<&str>,
) -> (r: Result<(), PersistError>)
    ensures
        r is Err ==> r.unwrap_err() is Generic,
{
    conn.execute(
        "INSERT OR REPLACE INTO payments (id, payment_type, payment_time, amount_msat, fee_msat, status, description) VALUES (?1,?2,?3,?4,?5,?6,?7)",
        (id, payment_type, payment_time, amount_msat as i64, fee_msat as i64, status, description),
    ).map(|_| ()).map_err(|e| PersistError::Generic { err: format!("{e}") })
}

/// Relies on `rusqlite::Connection::execute`: upserts one payment_details
/// row.
#[verifier::external_body]
fn exec_insert_payment_details(
    conn: &rusqlite::Connection,
    payment_id: &str,
    detail_kind: i64,
    ln_payment_hash: Option<&str>,
    ln_label: Option<&str>,
    ln_destination_pubkey: Option<&str>,
    ln_payment_preimage: Option<&str>,
    ln_keysend: Option<bool>,
    ln_bolt11: Option<&str>,
    cc_short_channel_id: Option<&str>,
    cc_state: Option<i64>,
    cc_funding_txid: Option<&str>,
) -> (r: Result<(), PersistError>)
    ensures
        r is Err ==> r.unwrap_err() is Generic,
{
    conn.execute(
        "INSERT OR REPLACE INTO payment_details (payment_id, detail_kind, ln_payment_hash, ln_label, ln_destination_pubkey, ln_payment_preimage, ln_keysend, ln_bolt11, cc_short_channel_id, cc_state, cc_funding_txid) VALUES (?1,?2,?3,?4,?5,?6,?7,?8,?9,?10,?11)",
        (payment_id, detail_kind, ln_payment_hash, ln_label, ln_destination_pubkey,
            ln_payment_preimage, ln_keysend, ln_bolt11, cc_short_channel_id, cc_state,
            cc_funding_txid),
    ).map(|_| ()).map_err(|e| PersistError::Generic { err: format!("{e}") })
}

/// Relies on `rusqlite::Connection::execute`: deletes the pending payments
/// of one type, returning how many went.
#[verifier::external_body]
fn exec_delete_pending(conn: &rusqlite::Connection, payment_type: &str, status: i64) -> (r:
    Result<usize, PersistError>)
    ensures
        r is Err ==> r.unwrap_err() is Generic,
{
    conn.execute(
        "DELETE FROM payments WHERE payment_type = ?1 AND status = ?2",
        (payment_type, status),
    ).map_err(|e| PersistError::Generic { err: format!("{e}") })
}

/// Relies on `rusqlite::Connection::execute`: upserts one
/// payments_external_info row.
#[verifier::external_body]
fn exec_insert_external_info(
    conn: &rusqlite::Connection,
    payment_id: &str,
    sa_kind: Option<i64>,
    sa_message: Option<&str>,
    sa_description: Option<&str>,
    sa_url: Option<&str>,
    lnurl_metadata: Option<&str>,
    ln_address: Option<&str>,
    lnurl_withdraw_endpoint: Option<&str>,
    failed_amount_msat: Option<u64>,
) -> (r: Result<(), PersistError>)
    ensures
        r is Err ==> r.unwrap_err() is Generic,
{
    conn.execute(
        "INSERT OR REPLACE INTO payments_external_info (payment_id, sa_kind, sa_message, sa_description, sa_url, lnurl_metadata, ln_address, lnurl_withdraw_endpoint, failed_amount_msat) VALUES (?1,?2,?3,?4,?5,?6,?7,?8,?9)",
        (payment_id, sa_kind, sa_message, sa_description, sa_url, lnurl_metadata, ln_address,
            lnurl_withdraw_endpoint, failed_amount_msat.map(|v| v as i64)),
    ).map(|_| ()).map_err(|e| PersistError::Generic { err: format!("{e}") })
}

/// Relies on `rusqlite::Connection::execute`: records the payer amount of
/// an invoice that requires a channel open.
#[verifier::external_body]
fn exec_insert_open_channel(
    conn: &rusqlite::Connection,
    payment_hash: &str,
    payer_amount_msat: u64,
) -> (r: Result<(), PersistError>)
    ensures
        r is Err ==> r.unwrap_err() is Generic,
{
    conn.execute(
        "INSERT INTO open_channel_payment_info (payment_hash, payer_amount_msat) VALUES (?1,?2)",
        (payment_hash, payer_amount_msat as i64),
    ).map(|_| ()).map_err(|e| PersistError::Generic { err: format!("{e}") })
}

/// Relies on `rusqlite::Connection::query_row`: the newest settled payment
/// time, `None` when the table holds no such payment.
#[verifier::external_body]
fn query_last_payment_timestamp(conn: &rusqlite::Connection, excluded_status: i64) -> (r: Result<
    Option<i64>,
    PersistError,
>)
    ensures
        r is Err ==> r.unwrap_err() is Generic,
{
    conn.query_row(
        "SELECT max(payment_time) FROM payments WHERE status != ?1",
        (excluded_status,),
        |row| row.get::<_, Option<i64>>(0),
    ).map_err(|e| PersistError::Generic { err: format!("{e}") })
}

/// Relies on `rusqlite::Statement::query_map`: runs the given SELECT over
/// the payments table and hands its rows back as plain values.
#[verifier::external_body]
fn query_payment_core_rows(conn: &rusqlite::Connection, sql: &str) -> (r: Result<
    Vec<PaymentCoreRow>,
    PersistError,
>)
    ensures
        r is Err ==> r.unwrap_err() is Generic,
{
    let map_err = |e: rusqlite::Error| PersistError::Generic { err: format!("{e}") };
    let mut stmt = conn.prepare(sql).map_err(map_err)?;
    let rows = stmt.query_map([], |row| Ok(PaymentCoreRow {
        id: row.get(0)?, payment_type: row.get(1)?, payment_time: row.get(2)?,
        amount_msat: row.get::<_, i64>(3)? as u64, fee_msat: row.get::<_, i64>(4)? as u64, status: row.get(5)?,
        description: row.get(6)?,
    })).map_err(map_err)?;
    rows.collect::<Result<Vec<_>, _>>().map_err(map_err)
}

/// Relies on `rusqlite::Connection::query_row`: one payments row by id.
#[verifier::external_body]
fn query_payment_core_by_id(conn: &rusqlite::Connection, id: &str) -> (r: Result<
    Option<PaymentCoreRow>,
    PersistError,
>)
    ensures
        r is Err ==> r.unwrap_err() is Generic,
{
    conn.query_row(
        "SELECT id, payment_type, payment_time, amount_msat, fee_msat, status, description FROM payments WHERE id = ?1",
        (id,),
        |row| Ok(PaymentCoreRow {
            id: row.get(0)?, payment_type: row.get(1)?, payment_time: row.get(2)?,
            amount_msat: row.get::<_, i64>(3)? as u64, fee_msat: row.get::<_, i64>(4)? as u64, status: row.get(5)?,
            description: row.get(6)?,
        }),
    ).optional().map_err(|e| PersistError::Generic { err: format!("{e}") })
}

/// Relies on `rusqlite::Connection::query_row`: the details row of a
/// payment.
#[verifier::external_body]
fn query_payment_details(conn: &rusqlite::Connection, payment_id: &str) -> (r: Result<
    Option<PaymentDetailsRow>,
    PersistError,
>)
    ensures
        r is Err ==> r.unwrap_err() is Generic,
{
    conn.query_row(
        "SELECT detail_kind, ln_payment_hash, ln_label, ln_destination_pubkey, ln_payment_preimage, ln_keysend, ln_bolt11, cc_short_channel_id, cc_state, cc_funding_txid FROM payment_details WHERE payment_id = ?1",
        (payment_id,),
        |row| Ok(PaymentDetailsRow {
            detail_kind: row.get(0)?, ln_payment_hash: row.get(1)?, ln_label: row.get(2)?,
            ln_destination_pubkey: row.get(3)?, ln_payment_preimage: row.get(4)?,
            ln_keysend: row.get(5)?, ln_bolt11: row.get(6)?, cc_short_channel_id: row.get(7)?,
            cc_state: row.get(8)?, cc_funding_txid: row.get(9)?,
        }),
    ).optional().map_err(|e| PersistError::Generic { err: format!("{e}") })
}

/// Relies on `rusqlite::Connection::query_row`: the external-info row of a
/// payment, when one was recorded.
#[verifier::external_body]
fn query_external_info(conn: &rusqlite::Connection, payment_id: &str) -> (r: Result<
    Option<ExternalInfoRow>,
    PersistError,
>)
    ensures
        r is Err ==> r.unwrap_err() is Generic,
{
    conn.query_row(
        "SELECT sa_kind, sa_message, sa_description, sa_url, lnurl_metadata, ln_address, lnurl_withdraw_endpoint, failed_amount_msat FROM payments_external_info WHERE payment_id = ?1",
        (payment_id,),
        |row| Ok(ExternalInfoRow {
            sa_kind: row.get(0)?, sa_message: row.get(1)?, sa_description: row.get(2)?,
            sa_url: row.get(3)?, lnurl_metadata: row.get(4)?, ln_address: row.get(5)?,
            lnurl_withdraw_endpoint: row.get(6)?, failed_amount_msat: row.get::<_, Option<i64>>(7)?.map(|v| v as u64),
        }),
    ).optional().map_err(|e| PersistError::Generic { err: format!("{e}") })
}

/// Relies on `rusqlite::Connection::query_row`: the recorded payer amount
/// of a channel-opening payment, when one was recorded.
#[verifier::external_body]
fn query_payer_amount(conn: &rusqlite::Connection, payment_hash: &str) -> (r: Result<
    Option<u64>,
    PersistError,
>)
    ensures
        r is Err ==> r.unwrap_err() is Generic,
{
    conn.query_row(
        "SELECT payer_amount_msat FROM open_channel_payment_info WHERE payment_hash = ?1",
        (payment_hash,),
        |row| row.get::<_, i64>(0).map(|v| v as u64),
    ).optional().map_err(|e| PersistError::Generic { err: format!("{e}") })
}

/// Relies on `rusqlite::Connection::execute`: upserts the fixed columns of
/// a swap.
#[verifier::external_body]
fn exec_insert_swap_main(
    conn: &rusqlite::Connection,
    payment_hash: &[u8],
    bitcoin_address: &str,
    created_at: i64,
    lock_height: i64,
    preimage: &[u8],
    private_key: &[u8],
    public_key: &[u8],
    swapper_public_key: &[u8],
    script: &[u8],
    bolt11: Option<&str>,
    paid_sats: u64,
    confirmed_sats: u64,
    unconfirmed_sats: u64,
    status: i64,
    min_allowed_deposit: i64,
    max_allowed_deposit: i64,
) -> (r: Result<(), PersistError>)
    ensures
        r is Err ==> r.unwrap_err() is Generic,
{
    conn.execute(
        "INSERT OR REPLACE INTO swaps (payment_hash, bitcoin_address, created_at, lock_height, preimage, private_key, public_key, swapper_public_key, script, bolt11, paid_sats, confirmed_sats, unconfirmed_sats, status, min_allowed_deposit, max_allowed_deposit) VALUES (?1,?2,?3,?4,?5,?6,?7,?8,?9,?10,?11,?12,?13,?14,?15,?16)",
        (payment_hash, bitcoin_address, created_at, lock_height, preimage, private_key,
            public_key, swapper_public_key, script, bolt11, paid_sats as i64,
            confirmed_sats as i64, unconfirmed_sats as i64, status, min_allowed_deposit,
            max_allowed_deposit),
    ).map(|_| ()).map_err(|e| PersistError::Generic { err: format!("{e}") })
}

/// Relies on `rusqlite::Connection::execute`: upserts the redeem error and
/// fee-schedule columns of a swap.
#[verifier::external_body]
fn exec_insert_swap_extra(
    conn: &rusqlite::Connection,
    bitcoin_address: &str,
    last_redeem_error: Option<&str>,
    ofp_min_msat: Option<u64>,
    ofp_proportional: Option<u32>,
    ofp_valid_until: Option<&str>,
    ofp_max_idle_time: Option<u32>,
    ofp_max_client_to_self_delay: Option<u32>,
    ofp_promise: Option<&str>,
) -> (r: Result<(), PersistError>)
    ensures
        r is Err ==> r.unwrap_err() is Generic,
{
    conn.execute(
        "INSERT OR REPLACE INTO swaps_extra (bitcoin_address, last_redeem_error, ofp_min_msat, ofp_proportional, ofp_valid_until, ofp_max_idle_time, ofp_max_client_to_self_delay, ofp_promise) VALUES (?1,?2,?3,?4,?5,?6,?7,?8)",
        (bitcoin_address, last_redeem_error, ofp_min_msat.map(|v| v as i64), ofp_proportional,
            ofp_valid_until, ofp_max_idle_time, ofp_max_client_to_self_delay, ofp_promise),
    ).map(|_| ()).map_err(|e| PersistError::Generic { err: format!("{e}") })
}

/// Relies on `rusqlite::Connection::execute`: records one transaction id
/// of a swap's refund, unconfirmed or confirmed list.
#[verifier::external_body]
fn exec_insert_swap_txid(
    conn: &rusqlite::Connection,
    bitcoin_address: &str,
    kind: i64,
    pos: i64,
    txid: &str,
) -> (r: Result<(), PersistError>)
    ensures
        r is Err ==> r.unwrap_err() is Generic,
{
    conn.execute(
        "INSERT OR REPLACE INTO swap_txids (bitcoin_address, kind, pos, txid) VALUES (?1,?2,?3,?4)",
        (bitcoin_address, kind, pos, txid),
    ).map(|_| ()).map_err(|e| PersistError::Generic { err: format!("{e}") })
}

/// Relies on `rusqlite::Connection::execute`: sets the invoice a swap pays
/// out over.
#[verifier::external_body]
fn exec_update_swap_bolt11(conn: &rusqlite::Connection, bitcoin_address: &str, bolt11: &str) -> (r:
    Result<(), PersistError>)
    ensures
        r is Err ==> r.unwrap_err() is Generic,
{
    conn.execute(
        "UPDATE swaps SET bolt11 = ?2 WHERE bitcoin_address = ?1",
        (bitcoin_address, bolt11),
    ).map(|_| ()).map_err(|e| PersistError::Generic { err: format!("{e}") })
}

/// Relies on `rusqlite::Connection::query_row`: the scalar columns of the
/// swap with the given payment hash.
#[verifier::external_body]
fn query_swap_scalars(conn: &rusqlite::Connection, payment_hash: &[u8]) -> (r: Result<
    Option<SwapScalarsRow>,
    PersistError,
>)
    ensures
        r is Err ==> r.unwrap_err() is Generic,
{
    conn.query_row(
        "SELECT bitcoin_address, created_at, lock_height, bolt11, paid_sats, confirmed_sats, unconfirmed_sats, status, min_allowed_deposit, max_allowed_deposit FROM swaps WHERE payment_hash = ?1",
        (payment_hash,),
        |row| Ok(SwapScalarsRow {
            bitcoin_address: row.get(0)?, created_at: row.get(1)?, lock_height: row.get(2)?,
            bolt11: row.get(3)?, paid_sats: row.get::<_, i64>(4)? as u64,
            confirmed_sats: row.get::<_, i64>(5)? as u64,
            unconfirmed_sats: row.get::<_, i64>(6)? as u64, status: row.get(7)?,
            min_allowed_deposit: row.get(8)?, max_allowed_deposit: row.get(9)?,
        }),
    ).optional().map_err(|e| PersistError::Generic { err: format!("{e}") })
}

/// Relies on `rusqlite::Connection::query_row`: the five byte-string
/// columns of a swap.
#[verifier::external_body]
fn query_swap_blobs(conn: &rusqlite::Connection, bitcoin_address: &str) -> (r: Result<
    Option<(Vec<u8>, Vec<u8>, Vec<u8>, Vec<u8>, Vec<u8>)>,
    PersistError,
>)
    ensures
        r is Err ==> r.unwrap_err() is Generic,
{
    conn.query_row(
        "SELECT preimage, private_key, public_key, swapper_public_key, script FROM swaps WHERE bitcoin_address = ?1",
        (bitcoin_address,),
        |row| Ok((row.get(0)?, row.get(1)?, row.get(2)?, row.get(3)?, row.get(4)?)),
    ).optional().map_err(|e| PersistError::Generic { err: format!("{e}") })
}

/// Relies on `rusqlite::Connection::query_row`: the redeem error and fee
/// columns of a swap.
#[verifier::external_body]
fn query_swap_extra(conn: &rusqlite::Connection, bitcoin_address: &str) -> (r: Result<
    Option<SwapExtraRow>,
    PersistError,
>)
    ensures
        r is Err ==> r.unwrap_err() is Generic,
{
    conn.query_row(
        "SELECT last_redeem_error, ofp_min_msat, ofp_proportional, ofp_valid_until, ofp_max_idle_time, ofp_max_client_to_self_delay, ofp_promise FROM swaps_extra WHERE bitcoin_address = ?1",
        (bitcoin_address,),
        |row| Ok(SwapExtraRow {
            last_redeem_error: row.get(0)?, ofp_min_msat: row.get::<_, Option<i64>>(1)?.map(|v| v as u64),
            ofp_proportional: row.get(2)?, ofp_valid_until: row.get(3)?,
            ofp_max_idle_time: row.get(4)?, ofp_max_client_to_self_delay: row.get(5)?,
            ofp_promise: row.get(6)?,
        }),
    ).optional().map_err(|e| PersistError::Generic { err: format!("{e}") })
}

/// Relies on `rusqlite::Statement::query_map`: one transaction-id list of
/// a swap, in recorded order.
#[verifier::external_body]
fn query_swap_txids(conn: &rusqlite::Connection, bitcoin_address: &str, kind: i64) -> (r: Result<
    Vec<String>,
    PersistError,
>)
    ensures
        r is Err ==> r.unwrap_err() is Generic,
{
    let map_err = |e: rusqlite::Error| PersistError::Generic { err: format!("{e}") };
    let mut stmt = conn.prepare(
        "SELECT txid FROM swap_txids WHERE bitcoin_address = ?1 AND kind = ?2 ORDER BY pos",
    ).map_err(map_err)?;
    let rows = stmt.query_map((bitcoin_address, kind), |row| row.get(0)).map_err(map_err)?;
    rows.collect::<Result<Vec<_>, _>>().map_err(map_err)
}


/// The text of an optional column, absent read as empty.
pub open spec fn opt_str_view(o: Option<String>) -> Seq<char> {
    match o {
        Some(s) => s@,
        None => Seq::<char>::empty(),
    }
}

/// `a` holds the same optional text as `b`.
pub open spec fn opt_str_same(a: Option<String>, b: Option<String>) -> bool {
    match (a, b) {
        (Some(x), Some(y)) => x@ == y@,
        (None, None) => true,
        _ => false,
    }
}

/// The integer code a channel state is stored under.
pub open spec fn spec_channel_state_code(s: ChannelState) -> i64 {
    match s {
        ChannelState::PendingOpen => 0,
        ChannelState::Opened => 1,
        ChannelState::PendingClose => 2,
        ChannelState::Closed => 3,
    }
}

/// Renders a channel state as its stored code.
pub fn channel_state_code(s: ChannelState) -> (r: i64)
    ensures
        r == spec_channel_state_code(s),
{
    match s {
        ChannelState::PendingOpen => 0,
        ChannelState::Opened => 1,
        ChannelState::PendingClose => 2,
        ChannelState::Closed => 3,
    }
}

/// Reads a channel state back from its stored code; an unknown code reads
/// as closed.
pub fn parse_channel_state_code(c: i64) -> (r: ChannelState)
    ensures
        c == 0 ==> r is PendingOpen,
        c == 1 ==> r is Opened,
        c == 2 ==> r is PendingClose,
        c != 0 && c != 1 && c != 2 ==> r is Closed,
{
    match c {
        0 => ChannelState::PendingOpen,
        1 => ChannelState::Opened,
        2 => ChannelState::PendingClose,
        _ => ChannelState::Closed,
    }
}

/// The stored payment type cannot be read back.
pub open spec fn payment_type_unreadable(s: Seq<char>) -> bool {
    forall|t: PaymentType| s != spec_payment_type_str(t)
}

/// The row set assembles into a payment: the type and status parse, the
/// detail kind is known, and a recorded payer amount covers the stored one.
pub open spec fn valid_payment_row(
    core: PaymentCoreRow,
    details: PaymentDetailsRow,
    payer_amount: Option<u64>,
) -> bool {
    &&& !payment_type_unreadable(core.payment_type@)
    &&& (core.status == 0 || core.status == 1 || core.status == 2)
    &&& (details.detail_kind == 0 || details.detail_kind == 1)
    &&& (payer_amount matches Some(pa) ==> pa >= core.amount_msat)
}

/// Assembles one payment from its stored rows. The amount of a failed
/// payment is the recorded failed amount when one exists; a recorded payer
/// amount turns the fee into the payer amount less the stored amount.
pub fn sql_row_to_payment(
    core: PaymentCoreRow,
    details: PaymentDetailsRow,
    external: Option<ExternalInfoRow>,
    payer_amount: Option<u64>,
    swap: Option<SwapInfo>,
) -> (r: Result<Payment, PersistError>)
    ensures
        r is Ok <==> valid_payment_row(core, details, payer_amount),
        r is Err ==> r.unwrap_err() is Generic,
        r matches Ok(p) ==> ({
            &&& p.id@ == core.id@
            &&& core.payment_type@ == spec_payment_type_str(p.payment_type)
            &&& core.status == spec_status_code(p.status)
            &&& p.payment_time == core.payment_time
            &&& p.amount_msat == (if p.status is Failed {
                match external {
                    Some(e) => match e.failed_amount_msat {
                        Some(f) => f,
                        None => core.amount_msat,
                    },
                    None => core.amount_msat,
                }
            } else {
                core.amount_msat
            })
            &&& p.fee_msat as int == (match payer_amount {
                Some(pa) => pa - core.amount_msat,
                None => core.fee_msat as int,
            })
            &&& opt_str_same(p.description, core.description)
            &&& (details.detail_kind == 0 ==> (p.details matches PaymentDetails::Ln { data }
                && {
                &&& data.payment_hash@ == opt_str_view(details.ln_payment_hash)
                &&& data.label@ == opt_str_view(details.ln_label)
                &&& data.destination_pubkey@ == opt_str_view(details.ln_destination_pubkey)
                &&& data.payment_preimage@ == opt_str_view(details.ln_payment_preimage)
                &&& data.keysend == (match details.ln_keysend {
                    Some(k) => k,
                    None => false,
                })
                &&& data.bolt11@ == opt_str_view(details.ln_bolt11)
                &&& data.swap_info == swap
                &&& (match external {
                    None => {
                        &&& data.lnurl_success_action is None
                        &&& data.lnurl_metadata is None
                        &&& data.ln_address is None
                        &&& data.lnurl_withdraw_endpoint is None
                    },
                    Some(e) => {
                        &&& opt_str_same(data.lnurl_metadata, e.lnurl_metadata)
                        &&& opt_str_same(data.ln_address, e.ln_address)
                        &&& opt_str_same(data.lnurl_withdraw_endpoint, e.lnurl_withdraw_endpoint)
                        &&& (match e.sa_kind {
                            Some(0) => data.lnurl_success_action matches Some(
                                SuccessActionProcessed::Message { data: m },
                            ) && m.message@ == opt_str_view(e.sa_message),
                            Some(1) => data.lnurl_success_action matches Some(
                                SuccessActionProcessed::Url { data: u },
                            ) && u.description@ == opt_str_view(e.sa_description) && u.url@
                                == opt_str_view(e.sa_url),
                            _ => data.lnurl_success_action is None,
                        })
                    },
                })
            }))
            &&& (details.detail_kind == 1 ==> (p.details matches PaymentDetails::ClosedChannel {
                data,
            } && {
                &&& data.short_channel_id@ == opt_str_view(details.cc_short_channel_id)
                &&& data.funding_txid@ == opt_str_view(details.cc_funding_txid)
            }))
        }),
{
    let payment_type = match parse_payment_type(core.payment_type.as_str()) {
        Some(t) => t,
        None => {
            return Err(
                PersistError::Generic { err: String::from_str("unknown payment type") },
            );
        },
    };
    let status = match parse_status_code(core.status) {
        Some(st) => st,
        None => {
            return Err(
                PersistError::Generic { err: String::from_str("unknown payment status") },
            );
        },
    };
    let amount_msat: u64 = if status == PaymentStatus::Failed {
        match &external {
            Some(e) => match e.failed_amount_msat {
                Some(f) => f,
                None => core.amount_msat,
            },
            None => core.amount_msat,
        }
    } else {
        core.amount_msat
    };
    let fee_msat: u64 = match payer_amount {
        Some(pa) => {
            if pa < core.amount_msat {
                return Err(
                    PersistError::Generic {
                        err: String::from_str("payer amount below stored amount"),
                    },
                );
            }
            pa - core.amount_msat
        },
        None => core.fee_msat,
    };
    let details_model: PaymentDetails = if details.detail_kind == 0 {
        let (lnurl_success_action, lnurl_metadata, ln_address, lnurl_withdraw_endpoint): (
            Option<SuccessActionProcessed>,
            Option<String>,
            Option<String>,
            Option<String>,
        ) = match external {
            None => (None, None, None, None),
            Some(e) => {
                let sa: Option<SuccessActionProcessed> = match e.sa_kind {
                    Some(0) => Some(
                        SuccessActionProcessed::Message {
                            data: MessageSuccessActionData {
                                message: unwrap_or_empty(e.sa_message),
                            },
                        },
                    ),
                    Some(1) => Some(
                        SuccessActionProcessed::Url {
                            data: UrlSuccessActionData {
                                description: unwrap_or_empty(e.sa_description),
                                url: unwrap_or_empty(e.sa_url),
                            },
                        },
                    ),
                    _ => None,
                };
                (sa, e.lnurl_metadata, e.ln_address, e.lnurl_withdraw_endpoint)
            },
        };
        PaymentDetails::Ln {
            data: LnPaymentDetails {
                payment_hash: unwrap_or_empty(details.ln_payment_hash),
                label: unwrap_or_empty(details.ln_label),
                destination_pubkey: unwrap_or_empty(details.ln_destination_pubkey),
                payment_preimage: unwrap_or_empty(details.ln_payment_preimage),
                keysend: match details.ln_keysend {
                    Some(k) => k,
                    None => false,
                },
                bolt11: unwrap_or_empty(details.ln_bolt11),
                lnurl_success_action,
                lnurl_metadata,
                ln_address,
                lnurl_withdraw_endpoint,
                swap_info: swap,
            },
        }
    } else if details.detail_kind == 1 {
        PaymentDetails::ClosedChannel {
            data: ClosedChannelPaymentDetails {
                short_channel_id: unwrap_or_empty(details.cc_short_channel_id),
                state: parse_channel_state_code(
                    match details.cc_state {
                        Some(c) => c,
                        None => 3,
                    },
                ),
                funding_txid: unwrap_or_empty(details.cc_funding_txid),
            },
        }
    } else {
        return Err(PersistError::Generic { err: String::from_str("unknown detail kind") });
    };
    Ok(
        Payment {
            id: core.id,
            payment_type,
            payment_time: core.payment_time,
            amount_msat,
            fee_msat,
            status,
            description: core.description,
            details: details_model,
        },
    )
}

fn unwrap_or_empty(o: Option<String>) -> (r: String)
    ensures
        r@ == opt_str_view(o),
{
    match o {
        Some(s) => s,
        None => String::new(),
    }
}

impl SqliteStorage {
    /// Opens the store at `db_path` (":memory:" gives a fresh in-memory
    /// store); `init` must run before anything else.
    pub fn new(db_path: &str) -> (r: Result<SqliteStorage, PersistError>)
        ensures
            r is Err ==> r.unwrap_err() is Generic,
    {
        match open_db(db_path) {
            Ok(conn) => Ok(SqliteStorage { conn }),
            Err(e) => Err(e),
        }
    }

    /// Creates the store's tables where they do not exist yet.
    pub fn init(&self) -> (r: Result<(), PersistError>)
        ensures
            r is Err ==> r.unwrap_err() is Generic,
    {
        exec_sql(
            &self.conn,
            "CREATE TABLE IF NOT EXISTS payments (id TEXT PRIMARY KEY, payment_type TEXT NOT NULL, payment_time INTEGER NOT NULL, amount_msat INTEGER NOT NULL, fee_msat INTEGER NOT NULL, status INTEGER NOT NULL, description TEXT)",
        )?;
        exec_sql(
            &self.conn,
            "CREATE TABLE IF NOT EXISTS payment_details (payment_id TEXT PRIMARY KEY, detail_kind INTEGER NOT NULL, ln_payment_hash TEXT, ln_label TEXT, ln_destination_pubkey TEXT, ln_payment_preimage TEXT, ln_keysend INTEGER, ln_bolt11 TEXT, cc_short_channel_id TEXT, cc_state INTEGER, cc_funding_txid TEXT)",
        )?;
        exec_sql(
            &self.conn,
            "CREATE TABLE IF NOT EXISTS payments_external_info (payment_id TEXT PRIMARY KEY, sa_kind INTEGER, sa_message TEXT, sa_description TEXT, sa_url TEXT, lnurl_metadata TEXT, ln_address TEXT, lnurl_withdraw_endpoint TEXT, failed_amount_msat INTEGER)",
        )?;
        exec_sql(
            &self.conn,
            "CREATE TABLE IF NOT EXISTS open_channel_payment_info (payment_hash TEXT PRIMARY KEY, payer_amount_msat INTEGER NOT NULL)",
        )?;
        exec_sql(
            &self.conn,
            "CREATE TABLE IF NOT EXISTS swaps (payment_hash BLOB, bitcoin_address TEXT PRIMARY KEY, created_at INTEGER NOT NULL, lock_height INTEGER NOT NULL, preimage BLOB, private_key BLOB, public_key BLOB, swapper_public_key BLOB, script BLOB, bolt11 TEXT, paid_sats INTEGER NOT NULL, confirmed_sats INTEGER NOT NULL, unconfirmed_sats INTEGER NOT NULL, status INTEGER NOT NULL, min_allowed_deposit INTEGER NOT NULL, max_allowed_deposit INTEGER NOT NULL)",
        )?;
        exec_sql(
            &self.conn,
            "CREATE TABLE IF NOT EXISTS swaps_extra (bitcoin_address TEXT PRIMARY KEY, last_redeem_error TEXT, ofp_min_msat INTEGER, ofp_proportional INTEGER, ofp_valid_until TEXT, ofp_max_idle_time INTEGER, ofp_max_client_to_self_delay INTEGER, ofp_promise TEXT)",
        )?;
        exec_sql(
            &self.conn,
            "CREATE TABLE IF NOT EXISTS swap_txids (bitcoin_address TEXT NOT NULL, kind INTEGER NOT NULL, pos INTEGER NOT NULL, txid TEXT NOT NULL, PRIMARY KEY (bitcoin_address, kind, pos))",
        )?;
        Ok(())
    }

    /// Upserts payments into the store, first deleting the previously
    /// pending sent payments the node may have re-listed with a new status.
    pub fn insert_or_update_payments(&self, transactions: &[Payment]) -> (r: Result<
        (),
        PersistError,
    >)
        ensures
            r is Err ==> r.unwrap_err() is Generic,
    {
        self.delete_pending_lightning_payments()?;
        let mut i: usize = 0;
        while i < transactions.len()
            invariant
                i <= transactions@.len(),
            decreases transactions@.len() - i,
        {
            self.insert_one_payment(&transactions[i])?;
            i = i + 1;
        }
        Ok(())
    }

    fn insert_one_payment(&self, p: &Payment) -> (r: Result<(), PersistError>)
        ensures
            r is Err ==> r.unwrap_err() is Generic,
    {
        let ptype = payment_type_to_string(p.payment_type);
        let status = status_code(p.status);
        exec_insert_payment(
            &self.conn,
            p.id.as_str(),
            ptype.as_str(),
            p.payment_time,
            p.amount_msat,
            p.fee_msat,
            status,
            opt_str_ref(&p.description),
        )?;
        match &p.details {
            PaymentDetails::Ln { data } => {
                exec_insert_payment_details(
                    &self.conn,
                    p.id.as_str(),
                    0,
                    Some(data.payment_hash.as_str()),
                    Some(data.label.as_str()),
                    Some(data.destination_pubkey.as_str()),
                    Some(data.payment_preimage.as_str()),
                    Some(data.keysend),
                    Some(data.bolt11.as_str()),
                    None,
                    None,
                    None,
                )
            },
            PaymentDetails::ClosedChannel { data } => {
                exec_insert_payment_details(
                    &self.conn,
                    p.id.as_str(),
                    1,
                    None,
                    None,
                    None,
                    None,
                    None,
                    None,
                    Some(data.short_channel_id.as_str()),
                    Some(channel_state_code(data.state)),
                    Some(data.funding_txid.as_str()),
                )
            },
        }
    }

    /// Deletes the pending sent payments, returning how many went.
    fn delete_pending_lightning_payments(&self) -> (r: Result<usize, PersistError>)
        ensures
            r is Err ==> r.unwrap_err() is Generic,
    {
        let ptype = payment_type_to_string(PaymentType::Sent);
        exec_delete_pending(&self.conn, ptype.as_str(), status_code(PaymentStatus::Pending))
    }

    /// Records the LNURL metadata associated with a payment.
    pub fn insert_payment_external_info(
        &self,
        payment_hash: &str,
        lnurl_pay_success_action: Option<&SuccessActionProcessed>,
        lnurl_metadata: Option<String>,
        ln_address: Option<String>,
        lnurl_withdraw_endpoint: Option<String>,
        failed_amount_msat: Option<u64>,
    ) -> (r: Result<(), PersistError>)
        ensures
            r is Err ==> r.unwrap_err() is Generic,
    {
        let (sa_kind, sa_message, sa_description, sa_url): (
            Option<i64>,
            Option<&str>,
            Option<&str>,
            Option<&str>,
        ) = match lnurl_pay_success_action {
            Some(SuccessActionProcessed::Message { data }) => (
                Some(0),
                Some(data.message.as_str()),
                None,
                None,
            ),
            Some(SuccessActionProcessed::Url { data }) => (
                Some(1),
                None,
                Some(data.description.as_str()),
                Some(data.url.as_str()),
            ),
            None => (None, None, None, None),
        };
        exec_insert_external_info(
            &self.conn,
            payment_hash,
            sa_kind,
            sa_message,
            sa_description,
            sa_url,
            opt_str_ref(&lnurl_metadata),
            opt_str_ref(&ln_address),
            opt_str_ref(&lnurl_withdraw_endpoint),
            failed_amount_msat,
        )
    }

    /// Records the payer amount of an invoice that requires a channel open.
    pub fn insert_open_channel_payment_info(
        &self,
        payment_hash: &str,
        payer_amount_msat: u64,
    ) -> (r: Result<(), PersistError>)
        ensures
            r is Err ==> r.unwrap_err() is Generic,
    {
        exec_insert_open_channel(&self.conn, payment_hash, payer_amount_msat)
    }

    /// The time of the newest settled payment; an error when none exists.
    pub fn last_payment_timestamp(&self) -> (r: Result<u64, PersistError>)
        ensures
            r is Err ==> r.unwrap_err() is Generic,
    {
        match query_last_payment_timestamp(&self.conn, status_code(PaymentStatus::Pending))? {
            Some(t) => {
                if t < 0 {
                    Err(PersistError::Generic { err: String::from_str("negative timestamp") })
                } else {
                    Ok(t as u64)
                }
            },
            None => Err(PersistError::Generic { err: String::from_str("no settled payment") }),
        }
    }

    /// Lists payments under the request's filters, newest first, assembling
    /// each from its stored rows.
    pub fn list_payments(&self, req: ListPaymentsRequest) -> (r: Result<
        Vec<Payment>,
        PersistError,
    >)
        ensures
            r is Err ==> r.unwrap_err() is Generic,
    {
        let where_clause = filter_to_where_clause(
            req.filters,
            req.from_timestamp,
            req.to_timestamp,
            req.include_failures,
        );
        let offset: u32 = match req.offset {
            Some(o) => o,
            None => 0,
        };
        let limit: u32 = match req.limit {
            Some(l) => l,
            None => u32::MAX,
        };
        let mut sql = String::from_str(
            "SELECT id, payment_type, payment_time, amount_msat, fee_msat, status, description FROM payments ",
        );
        sql.append(where_clause.as_str());
        sql.append(" ORDER BY payment_time DESC LIMIT ");
        push_u64_dec(&mut sql, limit as u64);
        sql.append(" OFFSET ");
        push_u64_dec(&mut sql, offset as u64);

        let rows = query_payment_core_rows(&self.conn, sql.as_str())?;
        let mut out: Vec<Payment> = Vec::new();
        let mut i: usize = 0;
        while i < rows.len()
            invariant
                i <= rows@.len(),
            decreases rows@.len() - i,
        {
            let p = self.assemble_payment(&rows[i])?;
            out.push(p);
            i = i + 1;
        }
        Ok(out)
    }

    fn assemble_payment(&self, core: &PaymentCoreRow) -> (r: Result<Payment, PersistError>)
        ensures
            r is Err ==> r.unwrap_err() is Generic,
    {
        let details = match query_payment_details(&self.conn, core.id.as_str())? {
            Some(d) => d,
            None => {
                return Err(
                    PersistError::Generic { err: String::from_str("payment row has no details") },
                );
            },
        };
        let external = query_external_info(&self.conn, core.id.as_str())?;
        let payer_amount = query_payer_amount(&self.conn, core.id.as_str())?;
        let swap: Option<SwapInfo> = if details.detail_kind == 0 {
            let hash_bytes = match crate::hexutil::hex_decode(core.id.as_str()) {
                Some(b) => b,
                None => Vec::new(),
            };
            self.get_swap_info_by_hash(&hash_bytes)?
        } else {
            None
        };
        sql_row_to_payment(core.clone(), details, external, payer_amount, swap)
    }

    /// One payment by its hex payment hash, in any status.
    pub fn get_payment_by_hash(&self, hash: &String) -> (r: Result<Option<Payment>, PersistError>)
        ensures
            r is Err ==> r.unwrap_err() is Generic,
    {
        match query_payment_core_by_id(&self.conn, hash.as_str())? {
            Some(core) => {
                let p = self.assemble_payment(&core)?;
                Ok(Some(p))
            },
            None => Ok(None),
        }
    }

    /// One payment by its hex payment hash, only when complete.
    pub fn get_completed_payment_by_hash(&self, hash: &String) -> (r: Result<
        Option<Payment>,
        PersistError,
    >)
        ensures
            r is Err ==> r.unwrap_err() is Generic,
            r matches Ok(Some(p)) ==> p.status is Complete,
    {
        match self.get_payment_by_hash(hash)? {
            Some(p) => {
                if p.status == PaymentStatus::Complete {
                    Ok(Some(p))
                } else {
                    Ok(None)
                }
            },
            None => Ok(None),
        }
    }

    /// Records a swap and the lists of transactions attached to it.
    pub fn insert_swap(&self, swap_info: SwapInfo) -> (r: Result<(), PersistError>)
        ensures
            r is Err ==> r.unwrap_err() is Generic,
    {
        exec_insert_swap_main(
            &self.conn,
            swap_info.payment_hash.as_slice(),
            swap_info.bitcoin_address.as_str(),
            swap_info.created_at,
            swap_info.lock_height,
            swap_info.preimage.as_slice(),
            swap_info.private_key.as_slice(),
            swap_info.public_key.as_slice(),
            swap_info.swapper_public_key.as_slice(),
            swap_info.script.as_slice(),
            opt_str_ref(&swap_info.bolt11),
            swap_info.paid_sats,
            swap_info.confirmed_sats,
            swap_info.unconfirmed_sats,
            swap_status_code(swap_info.status),
            swap_info.min_allowed_deposit,
            swap_info.max_allowed_deposit,
        )?;
        match &swap_info.channel_opening_fees {
            Some(f) => exec_insert_swap_extra(
                &self.conn,
                swap_info.bitcoin_address.as_str(),
                opt_str_ref(&swap_info.last_redeem_error),
                Some(f.min_msat),
                Some(f.proportional),
                Some(f.valid_until.as_str()),
                Some(f.max_idle_time),
                Some(f.max_client_to_self_delay),
                Some(f.promise.as_str()),
            )?,
            None => exec_insert_swap_extra(
                &self.conn,
                swap_info.bitcoin_address.as_str(),
                opt_str_ref(&swap_info.last_redeem_error),
                None,
                None,
                None,
                None,
                None,
                None,
            )?,
        }
        self.insert_swap_txid_list(&swap_info.bitcoin_address, 0, &swap_info.refund_tx_ids)?;
        self.insert_swap_txid_list(&swap_info.bitcoin_address, 1, &swap_info.unconfirmed_tx_ids)?;
        self.insert_swap_txid_list(&swap_info.bitcoin_address, 2, &swap_info.confirmed_tx_ids)?;
        Ok(())
    }

    fn insert_swap_txid_list(
        &self,
        bitcoin_address: &String,
        kind: i64,
        txids: &Vec<String>,
    ) -> (r: Result<(), PersistError>)
        ensures
            r is Err ==> r.unwrap_err() is Generic,
    {
        let mut i: usize = 0;
        while i < txids.len()
            invariant
                i <= txids@.len(),
            decreases txids@.len() - i,
        {
            if i <= i64::MAX as usize {
                exec_insert_swap_txid(
                    &self.conn,
                    bitcoin_address.as_str(),
                    kind,
                    i as i64,
                    txids[i].as_str(),
                )?;
            }
            i = i + 1;
        }
        Ok(())
    }

    /// Sets the invoice a swap pays out over.
    pub fn update_swap_bolt11(&self, bitcoin_address: String, bolt11: String) -> (r: Result<
        (),
        PersistError,
    >)
        ensures
            r is Err ==> r.unwrap_err() is Generic,
    {
        exec_update_swap_bolt11(&self.conn, bitcoin_address.as_str(), bolt11.as_str())
    }

    /// The swap redeemed by the payment with the given hash, when one was
    /// recorded.
    pub fn get_swap_info_by_hash(&self, hash: &Vec<u8>) -> (r: Result<
        Option<SwapInfo>,
        PersistError,
    >)
        ensures
            r is Err ==> r.unwrap_err() is Generic,
    {
        let main = match query_swap_scalars(&self.conn, hash.as_slice())? {
            Some(m) => m,
            None => {
                return Ok(None);
            },
        };
        let blobs = match query_swap_blobs(&self.conn, main.bitcoin_address.as_str())? {
            Some(b) => b,
            None => {
                return Ok(None);
            },
        };
        let extra = query_swap_extra(&self.conn, main.bitcoin_address.as_str())?;
        let refund_tx_ids = query_swap_txids(&self.conn, main.bitcoin_address.as_str(), 0)?;
        let unconfirmed_tx_ids = query_swap_txids(&self.conn, main.bitcoin_address.as_str(), 1)?;
        let confirmed_tx_ids = query_swap_txids(&self.conn, main.bitcoin_address.as_str(), 2)?;
        let (last_redeem_error, channel_opening_fees): (
            Option<String>,
            Option<OpeningFeeParams>,
        ) = match extra {
            Some(e) => {
                let fees: Option<OpeningFeeParams> = match (
                    e.ofp_min_msat,
                    e.ofp_proportional,
                    e.ofp_valid_until,
                    e.ofp_max_idle_time,
                    e.ofp_max_client_to_self_delay,
                    e.ofp_promise,
                ) {
                    (Some(m), Some(pr), Some(v), Some(mi), Some(md), Some(p)) => Some(
                        OpeningFeeParams {
                            min_msat: m,
                            proportional: pr,
                            valid_until: v,
                            max_idle_time: mi,
                            max_client_to_self_delay: md,
                            promise: p,
                        },
                    ),
                    _ => None,
                };
                (e.last_redeem_error, fees)
            },
            None => (None, None),
        };
        Ok(
            Some(
                SwapInfo {
                    bitcoin_address: main.bitcoin_address,
                    created_at: main.created_at,
                    lock_height: main.lock_height,
                    payment_hash: hash.clone(),
                    preimage: blobs.0,
                    private_key: blobs.1,
                    public_key: blobs.2,
                    swapper_public_key: blobs.3,
                    script: blobs.4,
                    bolt11: main.bolt11,
                    paid_sats: main.paid_sats,
                    confirmed_sats: main.confirmed_sats,
                    unconfirmed_sats: main.unconfirmed_sats,
                    status: parse_swap_status_code(main.status),
                    refund_tx_ids,
                    unconfirmed_tx_ids,
                    confirmed_tx_ids,
                    min_allowed_deposit: main.min_allowed_deposit,
                    max_allowed_deposit: main.max_allowed_deposit,
                    last_redeem_error,
                    channel_opening_fees,
                },
            ),
        )
    }
}

fn opt_str_ref(o: &Option<String>) -> (r: Option<&str>)
    ensures
        r is Some <==> o is Some,
        r is Some ==> r.unwrap()@ == o.unwrap()@,
{
    match o {
        Some(s) => Some(s.as_str()),
        None => None,
    }
}

} // verus!
