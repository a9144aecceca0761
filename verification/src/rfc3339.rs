//! Parsing of RFC 3339 UTC timestamps ("1993-02-01T10:00:00Z", optionally
//! with a fractional-second part) into Unix epoch seconds. Fee-schedule
//! expiries are written in this form.

use vstd::prelude::*;
use crate::strnum::{is_dec_char, is_dec_seq, dec_val};

verus! {

/// A Gregorian leap year.
pub open spec fn is_leap_year(y: int) -> bool {
    y % 4 == 0 && (y % 100 != 0 || y % 400 == 0)
}

/// Days in a month of a given year.
pub open spec fn days_in_month(y: int, m: int) -> int
    recommends
        1 <= m <= 12,
{
    if m == 2 {
        if is_leap_year(y) {
            29
        } else {
            28
        }
    } else if m == 4 || m == 6 || m == 9 || m == 11 {
        30
    } else {
        31
    }
}

/// Days in the full years from 1970 (inclusive) up to `y` (exclusive).
pub open spec fn days_in_years_since_epoch(y: int) -> int
    recommends
        y >= 1970,
    decreases y,
{
    if y <= 1970 {
        0
    } else {
        days_in_years_since_epoch(y - 1) + if is_leap_year(y - 1) {
            366int
        } else {
            365int
        }
    }
}

/// Days in the months of year `y` before month `m`.
pub open spec fn days_before_month(y: int, m: int) -> int
    recommends
        1 <= m <= 12,
{
    let plain: int = if m == 1 {
        0
    } else if m == 2 {
        31
    } else if m == 3 {
        59
    } else if m == 4 {
        90
    } else if m == 5 {
        120
    } else if m == 6 {
        151
    } else if m == 7 {
        181
    } else if m == 8 {
        212
    } else if m == 9 {
        243
    } else if m == 10 {
        273
    } else if m == 11 {
        304
    } else {
        334
    };
    plain + if m > 2 && is_leap_year(y) {
        1int
    } else {
        0int
    }
}

/// Seconds from the Unix epoch to the given UTC civil time.
pub open spec fn utc_epoch_seconds(y: int, m: int, d: int, h: int, mi: int, s: int) -> int {
    (days_in_years_since_epoch(y) + days_before_month(y, m) + (d - 1)) * 86400 + h * 3600 + mi
        * 60 + s
}

/// The value of the two digits of `s` at positions `i`, `i + 1`.
pub open spec fn two_digits(s: Seq<char>, i: int) -> int {
    dec_val(s.subrange(i, i + 2)) as int
}

/// A well-formed RFC 3339 UTC timestamp of a year from 1970 on:
/// "YYYY-MM-DDTHH:MM:SS", an optional fraction ".d..d", and the "Z" suffix.
pub open spec fn rfc3339_utc_ok(s: Seq<char>) -> bool {
    let y = dec_val(s.subrange(0, 4)) as int;
    let m = two_digits(s, 5);
    let d = two_digits(s, 8);
    &&& s.len() >= 20
    &&& (forall|k: int|
        0 <= k < 4 || k == 5 || k == 6 || k == 8 || k == 9 || k == 11 || k == 12 || k == 14 || k
            == 15 || k == 17 || k == 18 ==> is_dec_char(#[trigger] s[k]))
    &&& s[4] == '-'
    &&& s[7] == '-'
    &&& s[10] == 'T'
    &&& s[13] == ':'
    &&& s[16] == ':'
    &&& s[s.len() - 1] == 'Z'
    &&& (s.len() == 20 || (s.len() >= 22 && s[19] == '.' && forall|k: int|
        20 <= k < s.len() - 1 ==> is_dec_char(#[trigger] s[k])))
    &&& y >= 1970
    &&& 1 <= m <= 12
    &&& 1 <= d <= days_in_month(y, m)
    &&& two_digits(s, 11) <= 23
    &&& two_digits(s, 14) <= 59
    &&& two_digits(s, 17) <= 59
}

/// The epoch seconds denoted by a well-formed RFC 3339 UTC timestamp;
/// fractional seconds are dropped.
pub open spec fn rfc3339_utc_epoch(s: Seq<char>) -> Option<u64> {
    if rfc3339_utc_ok(s) {
        Some(
            utc_epoch_seconds(
                dec_val(s.subrange(0, 4)) as int,
                two_digits(s, 5),
                two_digits(s, 8),
                two_digits(s, 11),
                two_digits(s, 14),
                two_digits(s, 17),
            ) as u64,
        )
    } else {
        None
    }
}

/// The value of `k` decimal digits stays below 10^k, spelled out for the
/// widths that appear in a timestamp.
proof fn lemma_dec_val_digit_bound(s: Seq<char>, k: int)
    requires
        0 <= k <= s.len(),
        forall|i: int| 0 <= i < k ==> is_dec_char(#[trigger] s[i]),
    ensures
        k == 0 ==> dec_val(s.subrange(0, 0)) == 0,
        k == 1 ==> dec_val(s.subrange(0, 1)) <= 9,
        k == 2 ==> dec_val(s.subrange(0, 2)) <= 99,
        k == 3 ==> dec_val(s.subrange(0, 3)) <= 999,
        k == 4 ==> dec_val(s.subrange(0, 4)) <= 9999,
    decreases k,
{
    if k == 0 {
        assert(s.subrange(0, 0) =~= Seq::<char>::empty());
    } else {
        lemma_dec_val_digit_bound(s, k - 1);
        assert(s.subrange(0, k).drop_last() =~= s.subrange(0, k - 1));
        assert(s.subrange(0, k).last() == s[k - 1]);
        assert(s[k - 1] as int - 0x30 <= 9);
    }
}

/// The six numeric fields of a well-formed timestamp are digit strings of
/// bounded value.
proof fn lemma_ok_fields(s: Seq<char>)
    requires
        rfc3339_utc_ok(s),
    ensures
        is_dec_seq(s.subrange(0, 4)) && dec_val(s.subrange(0, 4)) <= 9999,
        is_dec_seq(s.subrange(5, 7)) && dec_val(s.subrange(5, 7)) <= 99,
        is_dec_seq(s.subrange(8, 10)) && dec_val(s.subrange(8, 10)) <= 99,
        is_dec_seq(s.subrange(11, 13)) && dec_val(s.subrange(11, 13)) <= 99,
        is_dec_seq(s.subrange(14, 16)) && dec_val(s.subrange(14, 16)) <= 99,
        is_dec_seq(s.subrange(17, 19)) && dec_val(s.subrange(17, 19)) <= 99,
{
    assert(forall|i: int| 0 <= i < 4 ==> s.subrange(0, 4)[i] == s[i]);
    lemma_dec_val_digit_bound(s.subrange(0, 4), 4);
    assert(s.subrange(0, 4).subrange(0, 4) =~= s.subrange(0, 4));
    assert(s.subrange(5, 7)[0] == s[5] && s.subrange(5, 7)[1] == s[6]);
    assert(s.subrange(8, 10)[0] == s[8] && s.subrange(8, 10)[1] == s[9]);
    assert(s.subrange(11, 13)[0] == s[11] && s.subrange(11, 13)[1] == s[12]);
    assert(s.subrange(14, 16)[0] == s[14] && s.subrange(14, 16)[1] == s[15]);
    assert(s.subrange(17, 19)[0] == s[17] && s.subrange(17, 19)[1] == s[18]);
    lemma_two_digits_bound(s, 5);
    lemma_two_digits_bound(s, 8);
    lemma_two_digits_bound(s, 11);
    lemma_two_digits_bound(s, 14);
    lemma_two_digits_bound(s, 17);
}

fn exec_is_leap_year(y: u64) -> (r: bool)
    ensures
        r == is_leap_year(y as int),
{
    y % 4 == 0 && (y % 100 != 0 || y % 400 == 0)
}

fn exec_days_in_month(y: u64, m: u64) -> (r: u64)
    requires
        1 <= m <= 12,
    ensures
        r as int == days_in_month(y as int, m as int),
        28 <= r <= 31,
{
    if m == 2 {
        if exec_is_leap_year(y) {
            29
        } else {
            28
        }
    } else if m == 4 || m == 6 || m == 9 || m == 11 {
        30
    } else {
        31
    }
}

fn exec_days_before_month(y: u64, m: u64) -> (r: u64)
    requires
        1 <= m <= 12,
    ensures
        r as int == days_before_month(y as int, m as int),
        r <= 335,
{
    let plain: u64 = match m {
        1 => 0,
        2 => 31,
        3 => 59,
        4 => 90,
        5 => 120,
        6 => 151,
        7 => 181,
        8 => 212,
        9 => 243,
        10 => 273,
        11 => 304,
        _ => 334,
    };
    if m > 2 && exec_is_leap_year(y) {
        plain + 1
    } else {
        plain
    }
}

fn exec_days_in_years(y: u64) -> (r: u64)
    requires
        1970 <= y <= 9999,
    ensures
        r as int == days_in_years_since_epoch(y as int),
        r <= 366 * (y - 1970),
{
    let mut acc: u64 = 0;
    let mut k: u64 = 1970;
    while k < y
        invariant
            1970 <= k <= y <= 9999,
            acc as int == days_in_years_since_epoch(k as int),
            acc <= 366 * (k - 1970),
        decreases y - k,
    {
        if exec_is_leap_year(k) {
            acc = acc + 366;
        } else {
            acc = acc + 365;
        }
        k = k + 1;
    }
    acc
}

/// Parses an RFC 3339 UTC timestamp into Unix epoch seconds; `None` when the
/// string is not of that form or lies before 1970.
pub fn parse_rfc3339_utc(s: &str) -> (r: Option<u64>)
    ensures
        r == rfc3339_utc_epoch(s@),
{
    if !s.is_ascii() {
        proof {
            let bad = choose|b: int| 0 <= b < s@.len() && !('\0' <= s@[b] && s@[b] <= '\u{7f}');
            if rfc3339_utc_ok(s@) {
                assert(!is_dec_char(s@[bad]) && s@[bad] != '-' && s@[bad] != 'T' && s@[bad]
                    != ':' && s@[bad] != 'Z' && s@[bad] != '.');
            }
        }
        return None;
    }
    let n = s.unicode_len();
    if n < 20 {
        return None;
    }
    if s.get_ascii(n - 1) != 0x5a {
        return None;
    }
    if s.get_ascii(4) != 0x2d || s.get_ascii(7) != 0x2d || s.get_ascii(10) != 0x54 || s.get_ascii(
        13,
    ) != 0x3a || s.get_ascii(16) != 0x3a {
        return None;
    }
    if n > 20 {
        if n < 22 || s.get_ascii(19) != 0x2e {
            return None;
        }
        let mut k: usize = 20;
        while k < n - 1
            invariant
                s.is_ascii(),
                s@.len() == n,
                22 <= n,
                20 <= k <= n - 1,
                forall|j: int| 20 <= j < k ==> is_dec_char(#[trigger] s@[j]),
            decreases n - k,
        {
            let b = s.get_ascii(k);
            if b < 0x30 || b > 0x39 {
                return None;
            }
            k = k + 1;
        }
    }
    let year = match crate::strnum::parse_dec_range(s, 0, 4) {
        Some(v) => v,
        None => {
            proof {
                if rfc3339_utc_ok(s@) {
                    lemma_ok_fields(s@);
                }
            }
            return None;
        },
    };
    let month = match crate::strnum::parse_dec_range(s, 5, 7) {
        Some(v) => v,
        None => {
            proof {
                if rfc3339_utc_ok(s@) {
                    lemma_ok_fields(s@);
                }
            }
            return None;
        },
    };
    let day = match crate::strnum::parse_dec_range(s, 8, 10) {
        Some(v) => v,
        None => {
            proof {
                if rfc3339_utc_ok(s@) {
                    lemma_ok_fields(s@);
                }
            }
            return None;
        },
    };
    let hour = match crate::strnum::parse_dec_range(s, 11, 13) {
        Some(v) => v,
        None => {
            proof {
                if rfc3339_utc_ok(s@) {
                    lemma_ok_fields(s@);
                }
            }
            return None;
        },
    };
    let minute = match crate::strnum::parse_dec_range(s, 14, 16) {
        Some(v) => v,
        None => {
            proof {
                if rfc3339_utc_ok(s@) {
                    lemma_ok_fields(s@);
                }
            }
            return None;
        },
    };
    let second = match crate::strnum::parse_dec_range(s, 17, 19) {
        Some(v) => v,
        None => {
            proof {
                if rfc3339_utc_ok(s@) {
                    lemma_ok_fields(s@);
                }
            }
            return None;
        },
    };
    proof {
        lemma_dec_val_digit_bound(s@.subrange(0, 4), 4);
        assert(s@.subrange(0, 4).subrange(0, 4) =~= s@.subrange(0, 4));
        lemma_two_digits_bound(s@, 5);
        lemma_two_digits_bound(s@, 8);
        lemma_two_digits_bound(s@, 11);
        lemma_two_digits_bound(s@, 14);
        lemma_two_digits_bound(s@, 17);
        assert(forall|k: int| 0 <= k < 4 ==> s@.subrange(0, 4)[k] == s@[k]);
        assert(s@.subrange(5, 7)[0] == s@[5] && s@.subrange(5, 7)[1] == s@[6]);
        assert(s@.subrange(8, 10)[0] == s@[8] && s@.subrange(8, 10)[1] == s@[9]);
        assert(s@.subrange(11, 13)[0] == s@[11] && s@.subrange(11, 13)[1] == s@[12]);
        assert(s@.subrange(14, 16)[0] == s@[14] && s@.subrange(14, 16)[1] == s@[15]);
        assert(s@.subrange(17, 19)[0] == s@[17] && s@.subrange(17, 19)[1] == s@[18]);
    }
    if year < 1970 || month < 1 || month > 12 {
        return None;
    }
    if day < 1 || day > exec_days_in_month(year, month) {
        return None;
    }
    if hour > 23 || minute > 59 || second > 59 {
        return None;
    }
    proof {
        assert forall|k: int|
            0 <= k < 4 || k == 5 || k == 6 || k == 8 || k == 9 || k == 11 || k == 12 || k == 14
                || k == 15 || k == 17 || k == 18 implies is_dec_char(#[trigger] s@[k]) by {
            assert(forall|i: int| 0 <= i < 4 ==> s@.subrange(0, 4)[i] == s@[i]);
            assert(s@.subrange(5, 7)[0] == s@[5] && s@.subrange(5, 7)[1] == s@[6]);
            assert(s@.subrange(8, 10)[0] == s@[8] && s@.subrange(8, 10)[1] == s@[9]);
            assert(s@.subrange(11, 13)[0] == s@[11] && s@.subrange(11, 13)[1] == s@[12]);
            assert(s@.subrange(14, 16)[0] == s@[14] && s@.subrange(14, 16)[1] == s@[15]);
            assert(s@.subrange(17, 19)[0] == s@[17] && s@.subrange(17, 19)[1] == s@[18]);
        }
        assert(rfc3339_utc_ok(s@));
    }
    let days: u64 = exec_days_in_years(year) + exec_days_before_month(year, month) + (day - 1);
    let epoch: u64 = days * 86400 + hour * 3600 + minute * 60 + second;
    Some(epoch)
}

/// Two decimal digits denote a value below 100.
proof fn lemma_two_digits_bound(s: Seq<char>, i: int)
    requires
        0 <= i,
        i + 2 <= s.len(),
        is_dec_seq(s.subrange(i, i + 2)),
    ensures
        0 <= two_digits(s, i) < 100,
{
    let part = s.subrange(i, i + 2);
    assert(is_dec_char(part[0]) && is_dec_char(part[1]));
    lemma_dec_val_digit_bound(part, 2);
    assert(part.subrange(0, 2) =~= part);
}

} // verus!
