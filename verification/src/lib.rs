//! Core logic of a non-custodial Lightning Network wallet SDK.
//!
//! The two central pieces are the payment-receiver pipeline, which turns a
//! "receive N msat" request into a payable invoice (orchestrating a
//! just-in-time channel open funded by an LSP when inbound liquidity is
//! short), and the node-state reconciliation engine, which folds the raw
//! listings returned by a Lightning node into one consistent state snapshot.
//! Invoice creation and signing, the LSP registration call, and all network
//! I/O are owned by external systems; this crate computes what to send them
//! and how to interpret what they return.

pub mod error;
pub mod hexutil;
pub mod strnum;
pub mod scid;
pub mod rfc3339;
pub mod models;
pub mod invoice;
pub mod lsp;
pub mod receive;
pub mod receiver;
pub mod send;
pub mod reconcile;
pub mod withdraw;
pub mod persist;
pub mod storage;
