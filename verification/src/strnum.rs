//! Decimal rendering and parsing of integers, used for SQL clause building
//! and for decoding the compact textual short-channel-id form.

use vstd::prelude::*;

verus! {

/// The decimal digit character for a value below 10.
pub open spec fn dec_digit(d: u8) -> char
    recommends
        d < 10,
{
    (d + 0x30) as char
}

/// The decimal rendering of a natural number, without leading zeros
/// (a single zero for 0).
pub open spec fn dec_of(n: nat) -> Seq<char>
    decreases n,
{
    if n < 10 {
        seq![dec_digit(n as u8)]
    } else {
        dec_of(n / 10) + seq![dec_digit((n % 10) as u8)]
    }
}

/// The decimal rendering of a signed number: a minus sign followed by the
/// rendering of the magnitude when negative.
pub open spec fn dec_of_int(n: int) -> Seq<char> {
    if n >= 0 {
        dec_of(n as nat)
    } else {
        seq!['-'] + dec_of((-n) as nat)
    }
}

/// A decimal digit character.
pub open spec fn is_dec_char(c: char) -> bool {
    '0' <= c && c <= '9'
}

/// A non-empty string of decimal digits.
pub open spec fn is_dec_seq(s: Seq<char>) -> bool {
    s.len() > 0 && (forall|i: int| 0 <= i < s.len() ==> is_dec_char(#[trigger] s[i]))
}

/// The value of a string of decimal digits.
pub open spec fn dec_val(s: Seq<char>) -> nat
    recommends
        forall|i: int| 0 <= i < s.len() ==> is_dec_char(#[trigger] s[i]),
    decreases s.len(),
{
    if s.len() == 0 {
        0
    } else {
        dec_val(s.drop_last()) * 10 + (s.last() as int - 0x30) as nat
    }
}

fn dec_digit_str(d: u8) -> (r: &'static str)
    requires
        d < 10,
    ensures
        r@ =~= seq![dec_digit(d)],
{
    proof {
        reveal_strlit("0");
        reveal_strlit("1");
        reveal_strlit("2");
        reveal_strlit("3");
        reveal_strlit("4");
        reveal_strlit("5");
        reveal_strlit("6");
        reveal_strlit("7");
        reveal_strlit("8");
        reveal_strlit("9");
    }
    match d {
        0 => "0",
        1 => "1",
        2 => "2",
        3 => "3",
        4 => "4",
        5 => "5",
        6 => "6",
        7 => "7",
        8 => "8",
        _ => "9",
    }
}

/// Appends the decimal rendering of `n` to `s`.
pub fn push_u64_dec(s: &mut String, n: u64)
    ensures
        final(s)@ == old(s)@ + dec_of(n as nat),
    decreases n,
{
    if n >= 10 {
        push_u64_dec(s, n / 10);
    }
    let d = dec_digit_str((n % 10) as u8);
    s.append(d);
    proof {
        if n < 10 {
            assert(old(s)@ + seq![dec_digit((n % 10) as u8)] =~= old(s)@ + dec_of(n as nat));
        } else {
            assert((old(s)@ + dec_of((n / 10) as nat)) + seq![dec_digit((n % 10) as u8)] =~= old(
                s,
            )@ + dec_of(n as nat));
        }
    }
}

/// The decimal rendering of an unsigned number as a fresh string.
pub fn u64_to_dec_string(n: u64) -> (r: String)
    ensures
        r@ == dec_of(n as nat),
{
    let mut r = String::new();
    push_u64_dec(&mut r, n);
    proof {
        assert(Seq::<char>::empty() + dec_of(n as nat) =~= dec_of(n as nat));
    }
    r
}

/// Appends the decimal rendering of a signed number to `s`.
pub fn push_i64_dec(s: &mut String, n: i64)
    ensures
        final(s)@ == old(s)@ + dec_of_int(n as int),
{
    if n >= 0 {
        push_u64_dec(s, n as u64);
    } else {
        s.append("-");
        let mag: u64 = (-(n as i128)) as u64;
        push_u64_dec(s, mag);
        proof {
            reveal_strlit("-");
            assert((old(s)@ + "-"@) + dec_of(mag as nat) =~= old(s)@ + dec_of_int(n as int));
        }
    }
}

/// Parses the decimal digits of `s` between `from` (inclusive) and `to`
/// (exclusive); `None` when the range is empty, holds a non-digit, or
/// denotes a value above `u64::MAX`.
pub fn parse_dec_range(s: &str, from: usize, to: usize) -> (r: Option<u64>)
    requires
        s.is_ascii(),
        from <= to <= s@.len(),
    ensures
        ({
            let part = s@.subrange(from as int, to as int);
            &&& r is Some <==> is_dec_seq(part) && dec_val(part) <= u64::MAX
            &&& r is Some ==> r.unwrap() as nat == dec_val(part)
        }),
{
    let ghost part = s@.subrange(from as int, to as int);
    if from == to {
        return None;
    }
    let mut acc: u64 = 0;
    let mut k: usize = from;
    while k < to
        invariant
            s.is_ascii(),
            from <= k <= to <= s@.len(),
            forall|i: int| from <= i < k ==> is_dec_char(#[trigger] s@[i]),
            acc as nat == dec_val(s@.subrange(from as int, k as int)),
        decreases to - k,
    {
        let b = s.get_ascii(k);
        if b < 0x30 || b > 0x39 {
            proof {
                assert(s@.subrange(from as int, to as int)[k - from] == s@[k as int]);
            }
            return None;
        }
        let wide: u128 = (acc as u128) * 10 + ((b - 0x30) as u128);
        if wide > u64::MAX as u128 {
            proof {
                lemma_dec_val_prefix(s@, from as int, k + 1, to as int);
                assert(s@.subrange(from as int, k + 1).drop_last() =~= s@.subrange(
                    from as int,
                    k as int,
                ));
                assert(s@.subrange(from as int, k + 1).last() == s@[k as int]);
            }
            return None;
        }
        acc = wide as u64;
        k = k + 1;
        proof {
            assert(s@.subrange(from as int, k as int).drop_last() =~= s@.subrange(
                from as int,
                k - 1,
            ));
            assert(s@.subrange(from as int, k as int).last() == s@[k - 1]);
        }
    }
    proof {
        assert(forall|i: int| 0 <= i < part.len() ==> part[i] == s@[from + i]);
    }
    Some(acc)
}

/// Once a digit prefix already denotes a value, the whole digit string
/// denotes at least as much.
proof fn lemma_dec_val_prefix(s: Seq<char>, from: int, mid: int, to: int)
    requires
        0 <= from <= mid <= to <= s.len(),
    ensures
        dec_val(s.subrange(from, mid)) <= dec_val(s.subrange(from, to)),
    decreases to - mid,
{
    if mid < to {
        lemma_dec_val_prefix(s, from, mid + 1, to);
        assert(s.subrange(from, mid + 1).drop_last() =~= s.subrange(from, mid));
        assert(s.subrange(from, mid + 1).last() == s[mid]);
    } else {
        assert(s.subrange(from, mid) =~= s.subrange(from, to));
    }
}

} // verus!
