//! The SQL-backed payment history store. The SQL engine itself is outside
//! this crate; what is verified here is everything the store computes:
//! the WHERE clause built from a listing filter, the mapping between the
//! wallet's payment model and row values, and the assembly of query
//! results back into payments.

use vstd::prelude::*;
use crate::models::{PaymentStatus, PaymentType, SwapStatus};
use crate::strnum::{dec_of_int, push_i64_dec};

verus! {

/// Which kinds of payment a listing asks for.
#[derive(Clone, Copy, Debug, PartialEq, Eq, Structural)]
pub enum PaymentTypeFilter {
    Sent,
    Received,
    ClosedChannel,
}

/// A payment-history listing request.
#[derive(Clone, Debug, PartialEq)]
pub struct ListPaymentsRequest {
    pub filters: Option<Vec<PaymentTypeFilter>>,
    pub from_timestamp: Option<i64>,
    pub to_timestamp: Option<i64>,
    pub include_failures: Option<bool>,
    pub offset: Option<u32>,
    pub limit: Option<u32>,
}

impl Default for ListPaymentsRequest {
    /// The empty request: no filter, no bounds, failures excluded.
    fn default() -> (r: Self)
        ensures
            r.filters is None,
            r.from_timestamp is None,
            r.to_timestamp is None,
            r.include_failures is None,
            r.offset is None,
            r.limit is None,
    {
        ListPaymentsRequest {
            filters: None,
            from_timestamp: None,
            to_timestamp: None,
            include_failures: None,
            offset: None,
            limit: None,
        }
    }
}

/// The text a payment type is stored under.
pub open spec fn spec_payment_type_str(t: PaymentType) -> Seq<char> {
    match t {
        PaymentType::Sent => "sent"@,
        PaymentType::Received => "received"@,
        PaymentType::ClosedChannel => "closed_channel"@,
    }
}

/// Renders a payment type as its stored text.
pub fn payment_type_to_string(t: PaymentType) -> (r: String)
    ensures
        r@ == spec_payment_type_str(t),
{
    match t {
        PaymentType::Sent => String::from_str("sent"),
        PaymentType::Received => String::from_str("received"),
        PaymentType::ClosedChannel => String::from_str("closed_channel"),
    }
}

/// Reads a payment type back from its stored text.
pub fn parse_payment_type(s: &str) -> (r: Option<PaymentType>)
    ensures
        r matches Some(t) ==> s@ == spec_payment_type_str(t),
        r is None ==> (forall|t: PaymentType| s@ != spec_payment_type_str(t)),
{
    let owned = String::from_str(s);
    if owned == String::from_str("sent") {
        Some(PaymentType::Sent)
    } else if owned == String::from_str("received") {
        Some(PaymentType::Received)
    } else if owned == String::from_str("closed_channel") {
        Some(PaymentType::ClosedChannel)
    } else {
        proof {
            assert forall|t: PaymentType| s@ != spec_payment_type_str(t) by {
                match t {
                    PaymentType::Sent => assert(s@ != "sent"@),
                    PaymentType::Received => assert(s@ != "received"@),
                    PaymentType::ClosedChannel => assert(s@ != "closed_channel"@),
                }
            }
        }
        None
    }
}

/// The integer code a payment status is stored under.
pub open spec fn spec_status_code(s: PaymentStatus) -> i64 {
    match s {
        PaymentStatus::Pending => 0,
        PaymentStatus::Complete => 1,
        PaymentStatus::Failed => 2,
    }
}

/// Renders a payment status as its stored code.
pub fn status_code(s: PaymentStatus) -> (r: i64)
    ensures
        r == spec_status_code(s),
{
    match s {
        PaymentStatus::Pending => 0,
        PaymentStatus::Complete => 1,
        PaymentStatus::Failed => 2,
    }
}

/// Reads a payment status back from its stored code.
pub fn parse_status_code(c: i64) -> (r: Option<PaymentStatus>)
    ensures
        r matches Some(s) ==> c == spec_status_code(s),
        r is None ==> c != 0 && c != 1 && c != 2,
{
    match c {
        0 => Some(PaymentStatus::Pending),
        1 => Some(PaymentStatus::Complete),
        2 => Some(PaymentStatus::Failed),
        _ => None,
    }
}

/// The integer code a swap status is stored under.
pub open spec fn spec_swap_status_code(s: SwapStatus) -> i64 {
    match s {
        SwapStatus::Initial => 0,
        SwapStatus::Expired => 1,
    }
}

/// Renders a swap status as its stored code.
pub fn swap_status_code(s: SwapStatus) -> (r: i64)
    ensures
        r == spec_swap_status_code(s),
{
    match s {
        SwapStatus::Initial => 0,
        SwapStatus::Expired => 1,
    }
}

/// Reads a swap status back from its stored code; an unknown code falls
/// back to the initial state.
pub fn parse_swap_status_code(c: i64) -> (r: SwapStatus)
    ensures
        c == spec_swap_status_code(SwapStatus::Expired) ==> r is Expired,
        c != spec_swap_status_code(SwapStatus::Expired) ==> r is Initial,
{
    if c == 1 {
        SwapStatus::Expired
    } else {
        SwapStatus::Initial
    }
}

/// `parts` joined with `sep` between consecutive entries.
pub open spec fn spec_join_sep(parts: Seq<Seq<char>>, sep: Seq<char>) -> Seq<char>
    decreases parts.len(),
{
    if parts.len() == 0 {
        Seq::empty()
    } else if parts.len() == 1 {
        parts[0]
    } else {
        spec_join_sep(parts.drop_last(), sep) + sep + parts.last()
    }
}

/// Joins strings with a separator.
fn join_with(parts: &Vec<String>, sep: &str) -> (r: String)
    ensures
        r@ == spec_join_sep(parts@.map_values(|s: String| s@), sep@),
{
    let ghost views = parts@.map_values(|s: String| s@);
    let mut r = String::new();
    let mut i: usize = 0;
    while i < parts.len()
        invariant
            views == parts@.map_values(|s: String| s@),
            i <= parts@.len(),
            r@ == spec_join_sep(views.take(i as int), sep@),
        decreases parts@.len() - i,
    {
        if i > 0 {
            r.append(sep);
        }
        r.append(parts[i].as_str());
        i = i + 1;
        proof {
            assert(views.take(i as int).drop_last() =~= views.take(i - 1));
            assert(views.take(i as int).last() == views[i - 1]);
            if i == 1 {
                assert(r@ =~= spec_join_sep(views.take(1), sep@));
            }
        }
    }
    proof {
        assert(views.take(views.len() as int) =~= views);
    }
    r
}

/// The filter clauses of a listing request, in the order they are emitted:
/// lower time bound, upper time bound, failure exclusion, type filter.
pub open spec fn spec_filter_clauses(
    type_filters: Option<Vec<PaymentTypeFilter>>,
    from_timestamp: Option<i64>,
    to_timestamp: Option<i64>,
    include_failures: Option<bool>,
) -> Seq<Seq<char>> {
    let cs = Seq::<Seq<char>>::empty();
    let cs = (match from_timestamp {
        Some(t) => cs.push("payment_time >= "@ + dec_of_int(t as int)),
        None => cs,
    });
    let cs = (match to_timestamp {
        Some(t) => cs.push("payment_time <= "@ + dec_of_int(t as int)),
        None => cs,
    });
    let cs = (if include_failures matches Some(true) {
        cs
    } else {
        cs.push("status != 2"@)
    });
    match type_filters {
        Some(fs) => {
            if fs@.len() == 0 {
                cs
            } else {
                cs.push("payment_type in ("@ + spec_join_sep(spec_type_names(fs@), ", "@) + ")"@)
            }
        },
        None => cs,
    }
}

/// The quoted names of the selected types, in the fixed order sent,
/// received, closed_channel, each at most once.
pub open spec fn spec_type_names(fs: Seq<PaymentTypeFilter>) -> Seq<Seq<char>> {
    let names = Seq::<Seq<char>>::empty();
    let names = (if fs.contains(PaymentTypeFilter::Sent) {
        names.push("'sent'"@)
    } else {
        names
    });
    let names = (if fs.contains(PaymentTypeFilter::Received) {
        names.push("'received'"@)
    } else {
        names
    });
    if fs.contains(PaymentTypeFilter::ClosedChannel) {
        names.push("'closed_channel'"@)
    } else {
        names
    }
}

/// The WHERE clause of a listing request: empty when nothing filters,
/// else "where " followed by the clauses joined with " and ".
pub open spec fn spec_where_clause(
    type_filters: Option<Vec<PaymentTypeFilter>>,
    from_timestamp: Option<i64>,
    to_timestamp: Option<i64>,
    include_failures: Option<bool>,
) -> Seq<char> {
    let cs = spec_filter_clauses(type_filters, from_timestamp, to_timestamp, include_failures);
    if cs.len() == 0 {
        Seq::empty()
    } else {
        "where "@ + spec_join_sep(cs, " and "@)
    }
}

fn filter_contains(fs: &Vec<PaymentTypeFilter>, t: PaymentTypeFilter) -> (r: bool)
    ensures
        r == fs@.contains(t),
{
    let mut i: usize = 0;
    while i < fs.len()
        invariant
            i <= fs@.len(),
            forall|j: int| 0 <= j < i ==> fs@[j] != t,
        decreases fs@.len() - i,
    {
        if fs[i] == t {
            return true;
        }
        i = i + 1;
    }
    proof {
        assert(forall|j: int| 0 <= j < fs@.len() ==> fs@[j] != t);
    }
    false
}

/// Builds the WHERE clause a listing request filters the payments table
/// with. Repeated type filters count once; the type names appear in the
/// fixed order sent, received, closed_channel.
pub fn filter_to_where_clause(
    type_filters: Option<Vec<PaymentTypeFilter>>,
    from_timestamp: Option<i64>,
    to_timestamp: Option<i64>,
    include_failures: Option<bool>,
) -> (r: String)
    ensures
        r@ == spec_where_clause(type_filters, from_timestamp, to_timestamp, include_failures),
{
    let mut where_clause: Vec<String> = Vec::new();
    let with_failures = match include_failures {
        Some(b) => b,
        None => false,
    };

    match from_timestamp {
        Some(t) => {
            let mut c = String::from_str("payment_time >= ");
            push_i64_dec(&mut c, t);
            where_clause.push(c);
        },
        None => (),
    }
    match to_timestamp {
        Some(t) => {
            let mut c = String::from_str("payment_time <= ");
            push_i64_dec(&mut c, t);
            where_clause.push(c);
        },
        None => (),
    }
    if !with_failures {
        where_clause.push(String::from_str("status != 2"));
    }

    match &type_filters {
        Some(filters) => {
            if filters.len() > 0 {
                let mut names: Vec<String> = Vec::new();
                if filter_contains(filters, PaymentTypeFilter::Sent) {
                    names.push(String::from_str("'sent'"));
                }
                if filter_contains(filters, PaymentTypeFilter::Received) {
                    names.push(String::from_str("'received'"));
                }
                if filter_contains(filters, PaymentTypeFilter::ClosedChannel) {
                    names.push(String::from_str("'closed_channel'"));
                }
                proof {
                    assert(names@.map_values(|s: String| s@) =~= spec_type_names(
                        filters@,
                    ));
                }
                let joined = join_with(&names, ", ");
                let mut c = String::from_str("payment_type in (");
                c.append(joined.as_str());
                c.append(")");
                where_clause.push(c);
            }
        },
        None => (),
    }

    proof {
        assert(where_clause@.map_values(|s: String| s@) =~= spec_filter_clauses(
            type_filters,
            from_timestamp,
            to_timestamp,
            include_failures,
        ));
    }
    if where_clause.len() == 0 {
        String::new()
    } else {
        let joined = join_with(&where_clause, " and ");
        let mut r = String::from_str("where ");
        r.append(joined.as_str());
        r
    }
}

} // verus!
