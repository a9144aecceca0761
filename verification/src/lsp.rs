//! LSP fee schedules: the channel-opening fee computation and the selection
//! of the cheapest schedule still valid for a requested expiry.

use vstd::prelude::*;
use crate::error::ReceivePaymentError;
use crate::models::{LspInformation, OpeningFeeParams};
use crate::rfc3339::rfc3339_utc_epoch;

verus! {

impl Clone for OpeningFeeParams {
    fn clone(&self) -> (r: Self)
        ensures
            r == *self,
    {
        OpeningFeeParams {
            min_msat: self.min_msat,
            proportional: self.proportional,
            valid_until: self.valid_until.clone(),
            max_idle_time: self.max_idle_time,
            max_client_to_self_delay: self.max_client_to_self_delay,
            promise: self.promise.clone(),
        }
    }
}

/// The channel-opening fee for `amount_msat` under schedule `params`: the
/// proportional share of the amount, floored at the schedule minimum.
pub open spec fn spec_channel_fee_msat(params: OpeningFeeParams, amount_msat: u64) -> int {
    let prop = amount_msat * params.proportional / 1000000;
    if prop > params.min_msat {
        prop
    } else {
        params.min_msat as int
    }
}

/// `amount_msat` is small enough for the proportional fee under `params` to
/// be computed in 64 bits.
pub open spec fn fee_computable(params: OpeningFeeParams, amount_msat: u64) -> bool {
    amount_msat * params.proportional <= u64::MAX
}

impl OpeningFeeParams {
    /// The fee deducted when a channel is opened for a payment of
    /// `amount_msat`.
    pub fn get_channel_fees_msat_for(&self, amount_msat: u64) -> (r: u64)
        requires
            fee_computable(*self, amount_msat),
        ensures
            r == spec_channel_fee_msat(*self, amount_msat),
    {
        let prop: u64 = amount_msat * (self.proportional as u64) / 1000000;
        if prop > self.min_msat {
            prop
        } else {
            self.min_msat
        }
    }

    /// The expiry of this schedule in Unix epoch seconds; `None` when
    /// `valid_until` is not a well-formed UTC timestamp.
    pub fn valid_until_epoch_seconds(&self) -> (r: Option<u64>)
        ensures
            r == rfc3339_utc_epoch(self.valid_until@),
    {
        crate::rfc3339::parse_rfc3339_utc(self.valid_until.as_str())
    }
}

/// The schedule can still be used at `deadline` (epoch seconds): its
/// expiry parses and lies at or past the deadline.
pub open spec fn schedule_valid(params: OpeningFeeParams, deadline: int) -> bool {
    match rfc3339_utc_epoch(params.valid_until@) {
        Some(e) => e >= deadline,
        None => false,
    }
}

/// `i` indexes the first schedule of `list` still valid at `deadline`.
pub open spec fn is_first_valid_schedule(
    list: Seq<OpeningFeeParams>,
    deadline: int,
    i: int,
) -> bool {
    &&& 0 <= i < list.len()
    &&& schedule_valid(list[i], deadline)
    &&& forall|j: int| 0 <= j < i ==> !schedule_valid(#[trigger] list[j], deadline)
}

/// The first schedule of `list` still valid at `deadline`, if any. The LSP
/// orders the list cheapest first, so this is the cheapest valid schedule.
pub open spec fn spec_cheapest_valid_schedule(
    list: Seq<OpeningFeeParams>,
    deadline: int,
) -> Option<OpeningFeeParams> {
    if exists|i: int| is_first_valid_schedule(list, deadline, i) {
        Some(list[choose|i: int| is_first_valid_schedule(list, deadline, i)])
    } else {
        None
    }
}

impl LspInformation {
    /// The first fee schedule in the list (the LSP orders it cheapest first)
    /// that remains valid for at least `expiry` seconds past `now`.
    pub fn cheapest_open_channel_fee(&self, expiry: u32, now_epoch_seconds: u64) -> (r: Result<
        &OpeningFeeParams,
        ReceivePaymentError,
    >)
        requires
            now_epoch_seconds + expiry <= u64::MAX,
        ensures
            ({
                let found = spec_cheapest_valid_schedule(
                    self.opening_fee_params_list@,
                    now_epoch_seconds + expiry,
                );
                &&& r is Ok <==> found is Some
                &&& r is Ok ==> *r.unwrap() == found.unwrap()
                &&& r is Err ==> r.unwrap_err() is Generic
            }),
    {
        let deadline: u64 = now_epoch_seconds + (expiry as u64);
        let list = &self.opening_fee_params_list;
        let mut i: usize = 0;
        while i < list.len()
            invariant
                list == &self.opening_fee_params_list,
                deadline == now_epoch_seconds + expiry,
                i <= list@.len(),
                forall|j: int|
                    0 <= j < i ==> !schedule_valid(#[trigger] list@[j], deadline as int),
            decreases list@.len() - i,
        {
            let valid = match list[i].valid_until_epoch_seconds() {
                Some(e) => e >= deadline,
                None => false,
            };
            if valid {
                proof {
                    assert(is_first_valid_schedule(list@, deadline as int, i as int));
                    let w = choose|w: int| is_first_valid_schedule(list@, deadline as int, w);
                    assert(w == i as int);
                }
                return Ok(&list[i]);
            }
            i = i + 1;
        }
        proof {
            assert(forall|i: int| !is_first_valid_schedule(list@, deadline as int, i));
        }
        Err(
            ReceivePaymentError::Generic {
                err: String::from_str("no fee schedule valid for the requested expiry"),
            },
        )
    }
}

} // verus!
