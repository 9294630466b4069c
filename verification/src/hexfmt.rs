//! Lower-case hex encoding and decoding of byte strings, as used for the
//! salt, IV, ciphertext, tag, and signature fields of the wire protocol.

use vstd::prelude::*;
use crate::CryptoError;
use crate::textutil::push_char;

verus! {

/// The hex digit for a value below sixteen.
pub open spec fn nib_char(n: u8) -> char {
    if n == 0 {
        '0'
    } else if n == 1 {
        '1'
    } else if n == 2 {
        '2'
    } else if n == 3 {
        '3'
    } else if n == 4 {
        '4'
    } else if n == 5 {
        '5'
    } else if n == 6 {
        '6'
    } else if n == 7 {
        '7'
    } else if n == 8 {
        '8'
    } else if n == 9 {
        '9'
    } else if n == 10 {
        'a'
    } else if n == 11 {
        'b'
    } else if n == 12 {
        'c'
    } else if n == 13 {
        'd'
    } else if n == 14 {
        'e'
    } else {
        'f'
    }
}

/// The value of a hex digit; upper- and lower-case digits are accepted.
pub open spec fn nib_val(c: char) -> Option<u8> {
    if c == '0' {
        Some(0u8)
    } else if c == '1' {
        Some(1u8)
    } else if c == '2' {
        Some(2u8)
    } else if c == '3' {
        Some(3u8)
    } else if c == '4' {
        Some(4u8)
    } else if c == '5' {
        Some(5u8)
    } else if c == '6' {
        Some(6u8)
    } else if c == '7' {
        Some(7u8)
    } else if c == '8' {
        Some(8u8)
    } else if c == '9' {
        Some(9u8)
    } else if c == 'a' || c == 'A' {
        Some(10u8)
    } else if c == 'b' || c == 'B' {
        Some(11u8)
    } else if c == 'c' || c == 'C' {
        Some(12u8)
    } else if c == 'd' || c == 'D' {
        Some(13u8)
    } else if c == 'e' || c == 'E' {
        Some(14u8)
    } else if c == 'f' || c == 'F' {
        Some(15u8)
    } else {
        None
    }
}

/// Lower-case hex text of a byte string: two digits per byte, in order.
pub open spec fn hex_of(data: Seq<u8>) -> Seq<char>
    decreases data.len(),
{
    if data.len() == 0 {
        Seq::empty()
    } else {
        hex_of(data.drop_last()) + seq![
            nib_char((data.last() / 16) as u8),
            nib_char((data.last() % 16) as u8),
        ]
    }
}

/// The byte string a hex text denotes: `None` unless the text has even
/// length and every character is a hex digit.
pub open spec fn hex_bytes_of(s: Seq<char>) -> Option<Seq<u8>>
    decreases s.len(),
{
    if s.len() == 0 {
        Some(Seq::empty())
    } else if s.len() == 1 {
        None
    } else {
        match (nib_val(s.last()), nib_val(s[s.len() - 2]), hex_bytes_of(s.take(s.len() - 2))) {
            (Some(lo), Some(hi), Some(rest)) => Some(rest.push((hi * 16 + lo) as u8)),
            _ => None,
        }
    }
}

pub proof fn lemma_hex_of_len(data: Seq<u8>)
    ensures
        hex_of(data).len() == 2 * data.len(),
    decreases data.len(),
{
    if data.len() > 0 {
        lemma_hex_of_len(data.drop_last());
    }
}

/// A decoded byte string is exactly half as long as its hex text.
pub proof fn lemma_hex_bytes_len(s: Seq<char>)
    ensures
        hex_bytes_of(s) matches Some(v) ==> 2 * v.len() == s.len(),
    decreases s.len(),
{
    if s.len() >= 2 {
        lemma_hex_bytes_len(s.take(s.len() - 2));
    }
}

/// Decoding inverts encoding: the hex text of a byte string denotes it.
pub proof fn lemma_hex_round_trip(data: Seq<u8>)
    ensures
        hex_bytes_of(hex_of(data)) == Some(data),
    decreases data.len(),
{
    if data.len() == 0 {
        assert(hex_of(data) =~= Seq::<char>::empty());
        assert(hex_bytes_of(hex_of(data)) matches Some(b) && b =~= data);
    } else {
        lemma_hex_round_trip(data.drop_last());
        lemma_hex_of_len(data.drop_last());
        let s = hex_of(data);
        let b = data.last();
        assert(s.len() >= 2);
        assert(s.last() == nib_char((b % 16) as u8));
        assert(s[s.len() - 2] == nib_char((b / 16) as u8));
        assert(s.take(s.len() - 2) =~= hex_of(data.drop_last()));
        assert(nib_val(nib_char((b / 16) as u8)) == Some((b / 16) as u8));
        assert(nib_val(nib_char((b % 16) as u8)) == Some((b % 16) as u8));
        assert(((b / 16) * 16 + (b % 16)) as u8 == b);
        assert(hex_bytes_of(s) matches Some(d) && d =~= data);
    }
}

/// Encode a byte string as lower-case hex text.
pub fn hex_encode(data: &Vec<u8>) -> (r: String)
    ensures
        r@ == hex_of(data@),
{
    let mut out = String::new();
    let mut i: usize = 0;
    proof {
        assert(data@.take(0int) =~= Seq::<u8>::empty());
    }
    while i < data.len()
        invariant
            i <= data@.len(),
            out@ == hex_of(data@.take(i as int)),
        decreases data@.len() - i,
    {
        let b = data[i];
        let hi = nib_to_char(b / 16);
        let lo = nib_to_char(b % 16);
        push_char(&mut out, hi);
        push_char(&mut out, lo);
        proof {
            let t = data@.take(i + 1int);
            assert(t.drop_last() =~= data@.take(i as int));
            assert(t.last() == data@[i as int]);
            assert(out@ =~= hex_of(t));
        }
        i = i + 1;
    }
    proof {
        assert(data@.take(data@.len() as int) =~= data@);
    }
    out
}

/// Decode hex text; fails on odd length or on any non-digit.
pub fn hex_decode(s: &str) -> (r: Result<Vec<u8>, CryptoError>)
    ensures
        r matches Ok(v) ==> hex_bytes_of(s@) == Some(v@),
        r is Err ==> hex_bytes_of(s@) is None && r == Err::<Vec<u8>, CryptoError>(
            CryptoError::Malformed,
        ),
{
    let n = s.unicode_len();
    if n % 2 != 0 {
        proof {
            lemma_hex_odd_none(s@);
        }
        return Err(CryptoError::Malformed);
    }
    let mut out: Vec<u8> = Vec::new();
    let mut i: usize = 0;
    proof {
        assert(s@.take(0int) =~= Seq::<char>::empty());
    }
    while i < n
        invariant
            i <= n,
            n == s@.len(),
            i % 2 == 0,
            n % 2 == 0,
            hex_bytes_of(s@.take(i as int)) == Some(out@),
        decreases n - i,
    {
        let c_hi = s.get_char(i);
        let c_lo = s.get_char(i + 1);
        let hi = match char_to_nib(c_hi) {
            Some(v) => v,
            None => {
                proof {
                    lemma_hex_bad_digit(s@, i as int);
                }
                return Err(CryptoError::Malformed);
            },
        };
        let lo = match char_to_nib(c_lo) {
            Some(v) => v,
            None => {
                proof {
                    lemma_hex_bad_digit(s@, i as int);
                }
                return Err(CryptoError::Malformed);
            },
        };
        out.push(hi * 16 + lo);
        proof {
            let t = s@.take(i + 2int);
            assert(t.len() == i + 2);
            assert(t.last() == s@[i + 1int]);
            assert(t[t.len() - 2] == s@[i as int]);
            assert(t.take(t.len() - 2) =~= s@.take(i as int));
        }
        i = i + 2;
    }
    proof {
        assert(s@.take(n as int) =~= s@);
    }
    Ok(out)
}

/// Hex text of odd length denotes nothing.
proof fn lemma_hex_odd_none(s: Seq<char>)
    requires
        s.len() % 2 == 1,
    ensures
        hex_bytes_of(s) is None,
    decreases s.len(),
{
    if s.len() > 1 {
        lemma_hex_odd_none(s.take(s.len() - 2));
    }
}

/// If either character of the pair starting at even position `i` is not a
/// hex digit, the whole text denotes nothing.
proof fn lemma_hex_bad_digit(s: Seq<char>, i: int)
    requires
        0 <= i,
        i + 2 <= s.len(),
        i % 2 == 0,
        s.len() % 2 == 0,
        nib_val(s[i]) is None || nib_val(s[i + 1]) is None,
    ensures
        hex_bytes_of(s) is None,
    decreases s.len(),
{
    if i + 2 < s.len() {
        let t = s.take(s.len() - 2);
        assert(t[i] == s[i] && t[i + 1] == s[i + 1]);
        lemma_hex_bad_digit(t, i);
    }
}

pub(crate) fn nib_to_char(n: u8) -> (c: char)
    requires
        n < 16,
    ensures
        c == nib_char(n),
{
    if n == 0 {
        '0'
    } else if n == 1 {
        '1'
    } else if n == 2 {
        '2'
    } else if n == 3 {
        '3'
    } else if n == 4 {
        '4'
    } else if n == 5 {
        '5'
    } else if n == 6 {
        '6'
    } else if n == 7 {
        '7'
    } else if n == 8 {
        '8'
    } else if n == 9 {
        '9'
    } else if n == 10 {
        'a'
    } else if n == 11 {
        'b'
    } else if n == 12 {
        'c'
    } else if n == 13 {
        'd'
    } else if n == 14 {
        'e'
    } else {
        'f'
    }
}

fn char_to_nib(c: char) -> (r: Option<u8>)
    ensures
        r == nib_val(c),
        r matches Some(v) ==> v < 16,
{
    if c == '0' {
        Some(0)
    } else if c == '1' {
        Some(1)
    } else if c == '2' {
        Some(2)
    } else if c == '3' {
        Some(3)
    } else if c == '4' {
        Some(4)
    } else if c == '5' {
        Some(5)
    } else if c == '6' {
        Some(6)
    } else if c == '7' {
        Some(7)
    } else if c == '8' {
        Some(8)
    } else if c == '9' {
        Some(9)
    } else if c == 'a' || c == 'A' {
        Some(10)
    } else if c == 'b' || c == 'B' {
        Some(11)
    } else if c == 'c' || c == 'C' {
        Some(12)
    } else if c == 'd' || c == 'D' {
        Some(13)
    } else if c == 'e' || c == 'E' {
        Some(14)
    } else if c == 'f' || c == 'F' {
        Some(15)
    } else {
        None
    }
}

} // verus!
