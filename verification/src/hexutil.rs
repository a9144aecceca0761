//! Lower-case hexadecimal encoding and decoding of byte strings, used for
//! node ids, payment hashes and funding transaction ids.

use vstd::prelude::*;

verus! {

/// The lower-case hex digit character for a value below 16.
pub open spec fn hex_digit(d: u8) -> char
    recommends
        d < 16,
{
    if d < 10 {
        (d + 0x30) as char
    } else {
        (d + 0x57) as char
    }
}

/// The lower-case hex rendering of a byte string: two digits per byte,
/// high nibble first.
pub open spec fn hex_of(s: Seq<u8>) -> Seq<char>
    decreases s.len(),
{
    if s.len() == 0 {
        Seq::<char>::empty()
    } else {
        hex_of(s.drop_last()) + seq![hex_digit(s.last() / 16), hex_digit(s.last() % 16)]
    }
}

/// A character that may appear in a hex string (either case accepted).
pub open spec fn is_hex_char(c: char) -> bool {
    ('0' <= c && c <= '9') || ('a' <= c && c <= 'f') || ('A' <= c && c <= 'F')
}

/// The value of one hex digit character, either case.
pub open spec fn hex_val(c: char) -> u8
    recommends
        is_hex_char(c),
{
    if '0' <= c && c <= '9' {
        (c as u8 - 0x30) as u8
    } else if 'a' <= c && c <= 'f' {
        (c as u8 - 0x57) as u8
    } else {
        (c as u8 - 0x37) as u8
    }
}

/// A well-formed hex string: even length, hex digits only.
pub open spec fn is_hex_seq(s: Seq<char>) -> bool {
    s.len() % 2 == 0 && (forall|i: int| 0 <= i < s.len() ==> is_hex_char(#[trigger] s[i]))
}

/// The byte string denoted by a well-formed hex string.
pub open spec fn bytes_of_hex(s: Seq<char>) -> Seq<u8>
    recommends
        is_hex_seq(s),
    decreases s.len(),
{
    if s.len() < 2 {
        Seq::<u8>::empty()
    } else {
        bytes_of_hex(s.take(s.len() - 2)).push(
            (hex_val(s[s.len() - 2]) * 16 + hex_val(s[s.len() - 1])) as u8,
        )
    }
}

fn hex_digit_str(d: u8) -> (r: &'static str)
    requires
        d < 16,
    ensures
        r@ =~= seq![hex_digit(d)],
{
    proof {
        reveal_strlit("0");
        reveal_strlit("1");
        reveal_strlit("2");
        reveal_strlit("3");
        reveal_strlit("4");
        reveal_strlit("5");
        reveal_strlit("6");
        reveal_strlit("7");
        reveal_strlit("8");
        reveal_strlit("9");
        reveal_strlit("a");
        reveal_strlit("b");
        reveal_strlit("c");
        reveal_strlit("d");
        reveal_strlit("e");
        reveal_strlit("f");
    }
    match d {
        0 => "0",
        1 => "1",
        2 => "2",
        3 => "3",
        4 => "4",
        5 => "5",
        6 => "6",
        7 => "7",
        8 => "8",
        9 => "9",
        10 => "a",
        11 => "b",
        12 => "c",
        13 => "d",
        14 => "e",
        _ => "f",
    }
}

/// Encodes a byte string as lower-case hex, two digits per byte.
pub fn hex_encode(bytes: &[u8]) -> (r: String)
    ensures
        r@ == hex_of(bytes@),
{
    let mut r = String::new();
    let mut i: usize = 0;
    while i < bytes.len()
        invariant
            i <= bytes.len(),
            r@ == hex_of(bytes@.take(i as int)),
        decreases bytes.len() - i,
    {
        let b = bytes[i];
        let hi = hex_digit_str(b / 16);
        let lo = hex_digit_str(b % 16);
        r.append(hi);
        r.append(lo);
        i = i + 1;
        proof {
            let t = bytes@.take(i as int);
            assert(t.drop_last() =~= bytes@.take(i - 1));
            assert(t.last() == bytes@[i - 1]);
        }
    }
    proof {
        assert(bytes@.take(bytes@.len() as int) =~= bytes@);
    }
    r
}

fn hex_val_of_char_byte(b: u8) -> (r: Option<u8>)
    ensures
        r is Some <==> is_hex_char(b as char),
        r is Some ==> r.unwrap() == hex_val(b as char) && r.unwrap() < 16,
{
    if 0x30 <= b && b <= 0x39 {
        Some(b - 0x30)
    } else if 0x61 <= b && b <= 0x66 {
        Some(b - 0x57)
    } else if 0x41 <= b && b <= 0x46 {
        Some(b - 0x37)
    } else {
        None
    }
}

/// Decodes a hex string (either case) into its byte string; `None` when the
/// input is not a well-formed hex string.
pub fn hex_decode(s: &str) -> (r: Option<Vec<u8>>)
    ensures
        r is Some <==> is_hex_seq(s@),
        r is Some ==> r.unwrap()@ == bytes_of_hex(s@),
{
    if !s.is_ascii() {
        proof {
            let j = choose|j: int|
                0 <= j < s@.len() && !('\0' <= s@[j] && s@[j] <= '\u{7f}');
            assert(!is_hex_char(s@[j]));
        }
        return None;
    }
    let n = s.unicode_len();
    if n % 2 != 0 {
        return None;
    }
    let mut out: Vec<u8> = Vec::new();
    let mut i: usize = 0;
    while i < n
        invariant
            s.is_ascii(),
            s@.len() == n,
            n % 2 == 0,
            i <= n,
            i % 2 == 0,
            out@ == bytes_of_hex(s@.take(i as int)),
            forall|j: int| 0 <= j < i ==> is_hex_char(#[trigger] s@[j]),
        decreases n - i,
    {
        let c1 = s.get_ascii(i);
        let c2 = s.get_ascii(i + 1);
        let v1 = match hex_val_of_char_byte(c1) {
            Some(v) => v,
            None => {
                return None;
            },
        };
        let v2 = match hex_val_of_char_byte(c2) {
            Some(v) => v,
            None => {
                return None;
            },
        };
        out.push(v1 * 16 + v2);
        i = i + 2;
        proof {
            let t = s@.take(i as int);
            assert(t.take(t.len() - 2) =~= s@.take(i - 2));
            assert(t[t.len() - 2] == s@[i - 2]);
            assert(t[t.len() - 1] == s@[i - 1]);
        }
    }
    proof {
        assert(s@.take(n as int) =~= s@);
    }
    Some(out)
}

} // verus!
