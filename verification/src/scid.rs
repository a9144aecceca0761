//! Decoding of the compact textual short-channel-id form
//! "block x transaction x output" into the packed 64-bit representation.

use vstd::prelude::*;
use crate::error::ReceivePaymentError;
use crate::strnum::{is_dec_seq, dec_val};

verus! {

/// The packed 64-bit short-channel-id: block height in the top 24 bits,
/// transaction index in the middle, output index in the low 16 bits.
pub open spec fn scid_pack(block: u64, tx: u64, output: u64) -> u64 {
    (block << 40) | (tx << 16) | output
}

/// `i` and `j` mark the only two separators of a well-formed textual
/// short-channel-id, with a decimal number in each of the three parts.
pub open spec fn scid_positions_ok(s: Seq<char>, i: int, j: int) -> bool {
    &&& 0 <= i < j < s.len()
    &&& s[i] == 'x'
    &&& s[j] == 'x'
    &&& forall|k: int| 0 <= k < s.len() && k != i && k != j ==> #[trigger] s[k] != 'x'
    &&& is_dec_seq(s.subrange(0, i))
    &&& is_dec_seq(s.subrange(i + 1, j))
    &&& is_dec_seq(s.subrange(j + 1, s.len() as int))
    &&& dec_val(s.subrange(0, i)) <= u64::MAX
    &&& dec_val(s.subrange(i + 1, j)) <= u64::MAX
    &&& dec_val(s.subrange(j + 1, s.len() as int)) <= u64::MAX
}

/// The value denoted by a textual short-channel-id, when well formed.
pub open spec fn spec_parse_scid(s: Seq<char>) -> Option<u64> {
    if exists|i: int, j: int| scid_positions_ok(s, i, j) {
        let (i, j) = choose|i: int, j: int| scid_positions_ok(s, i, j);
        Some(
            scid_pack(
                dec_val(s.subrange(0, i)) as u64,
                dec_val(s.subrange(i + 1, j)) as u64,
                dec_val(s.subrange(j + 1, s.len() as int)) as u64,
            ),
        )
    } else {
        None
    }
}

fn scid_parse_error() -> (r: ReceivePaymentError)
    ensures
        r is ParseError,
{
    ReceivePaymentError::ParseError { err: String::from_str("invalid short channel id") }
}

/// Decodes a textual short-channel-id "block x transaction x output" into
/// its packed 64-bit form.
pub fn parse_short_channel_id(id_str: &str) -> (r: Result<u64, ReceivePaymentError>)
    ensures
        r is Ok <==> spec_parse_scid(id_str@) is Some,
        r is Ok ==> r.unwrap() == spec_parse_scid(id_str@).unwrap(),
        r is Err ==> r.unwrap_err() is ParseError,
{
    let ghost s = id_str@;
    if !id_str.is_ascii() {
        proof {
            let bad = choose|b: int| 0 <= b < s.len() && !('\0' <= s[b] && s[b] <= '\u{7f}');
            assert forall|i: int, j: int| !scid_positions_ok(s, i, j) by {
                if scid_positions_ok(s, i, j) {
                    if bad < i {
                        assert(s.subrange(0, i)[bad] == s[bad]);
                    } else if bad == i || bad == j {
                    } else if bad < j {
                        assert(s.subrange(i + 1, j)[bad - i - 1] == s[bad]);
                    } else {
                        assert(s.subrange(j + 1, s.len() as int)[bad - j - 1] == s[bad]);
                    }
                }
            }
        }
        return Err(scid_parse_error());
    }
    let n = id_str.unicode_len();
    let mut count: usize = 0;
    let mut p1: usize = 0;
    let mut p2: usize = 0;
    let mut k: usize = 0;
    while k < n
        invariant
            id_str.is_ascii(),
            s == id_str@,
            s.len() == n,
            k <= n,
            count <= 2,
            count == 0 ==> forall|m: int| 0 <= m < k ==> #[trigger] s[m] != 'x',
            count == 1 ==> p1 < k && s[p1 as int] == 'x' && (forall|m: int|
                0 <= m < k && m != p1 ==> #[trigger] s[m] != 'x'),
            count == 2 ==> p1 < p2 < k && s[p1 as int] == 'x' && s[p2 as int] == 'x' && (
            forall|m: int| 0 <= m < k && m != p1 && m != p2 ==> #[trigger] s[m] != 'x'),
        decreases n - k,
    {
        let b = id_str.get_ascii(k);
        if b == 0x78 {
            assert(s[k as int] == 'x');
            if count == 0 {
                p1 = k;
                count = 1;
            } else if count == 1 {
                p2 = k;
                count = 2;
            } else {
                proof {
                    assert forall|i: int, j: int| !scid_positions_ok(s, i, j) by {
                        if scid_positions_ok(s, i, j) {
                            if p1 != i && p1 != j {
                                assert(s[p1 as int] != 'x');
                            } else if p2 != i && p2 != j {
                                assert(s[p2 as int] != 'x');
                            } else {
                                assert(s[k as int] != 'x');
                            }
                        }
                    }
                }
                return Err(scid_parse_error());
            }
        } else {
            assert(s[k as int] != 'x');
        }
        k = k + 1;
    }
    if count != 2 {
        proof {
            assert forall|i: int, j: int| !scid_positions_ok(s, i, j) by {
                if scid_positions_ok(s, i, j) {
                    if count == 0 {
                        assert(s[i] != 'x');
                    } else {
                        assert(i == p1 && j == p1);
                    }
                }
            }
        }
        return Err(scid_parse_error());
    }
    // Exactly two separators, at p1 < p2: any well-formed reading uses them.
    proof {
        assert forall|i: int, j: int| scid_positions_ok(s, i, j) implies i == p1 as int && j
            == p2 as int by {
            assert(s[i] == 'x' && s[j] == 'x');
        }
    }
    let block = match crate::strnum::parse_dec_range(id_str, 0, p1) {
        Some(v) => v,
        None => {
            return Err(scid_parse_error());
        },
    };
    let tx = match crate::strnum::parse_dec_range(id_str, p1 + 1, p2) {
        Some(v) => v,
        None => {
            return Err(scid_parse_error());
        },
    };
    let output = match crate::strnum::parse_dec_range(id_str, p2 + 1, n) {
        Some(v) => v,
        None => {
            return Err(scid_parse_error());
        },
    };
    proof {
        assert(scid_positions_ok(s, p1 as int, p2 as int));
        let (ci, cj) = choose|i: int, j: int| scid_positions_ok(s, i, j);
        assert(ci == p1 as int && cj == p2 as int);
    }
    Ok((block << 40u64) | (tx << 16u64) | output)
}

} // verus!
