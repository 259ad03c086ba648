//! Utility functions for common byte-level operations.
use std::collections::hash_map::DefaultHasher;
use std::hash::Hasher;

use vstd::prelude::*;
use vstd::slice::slice_to_vec;
use vstd::std_specs::hash::DefaultHasherAdditionalSpecFns;
use vstd::string::StringExecFns;

use crate::text::{decimal_string, spec_decimal};

verus! {

/// The lowercase character for one hexadecimal digit.
pub open spec fn spec_hex_digit(d: int) -> char {
    if d == 0 {
        '0'
    } else if d == 1 {
        '1'
    } else if d == 2 {
        '2'
    } else if d == 3 {
        '3'
    } else if d == 4 {
        '4'
    } else if d == 5 {
        '5'
    } else if d == 6 {
        '6'
    } else if d == 7 {
        '7'
    } else if d == 8 {
        '8'
    } else if d == 9 {
        '9'
    } else if d == 10 {
        'a'
    } else if d == 11 {
        'b'
    } else if d == 12 {
        'c'
    } else if d == 13 {
        'd'
    } else if d == 14 {
        'e'
    } else {
        'f'
    }
}

/// The lowercase hex rendering of a byte sequence, two digits per byte.
pub open spec fn spec_hex_of(s: Seq<u8>) -> Seq<char>
    decreases s.len(),
{
    if s.len() == 0 {
        Seq::empty()
    } else {
        spec_hex_of(s.drop_last()) + seq![
            spec_hex_digit(s.last() as int / 16),
            spec_hex_digit(s.last() as int % 16),
        ]
    }
}

/// The numeric value of a hex digit character, upper or lower case, or -1
/// when the character is not a hex digit.
pub open spec fn spec_hex_val(c: char) -> int {
    if c == '0' {
        0
    } else if c == '1' {
        1
    } else if c == '2' {
        2
    } else if c == '3' {
        3
    } else if c == '4' {
        4
    } else if c == '5' {
        5
    } else if c == '6' {
        6
    } else if c == '7' {
        7
    } else if c == '8' {
        8
    } else if c == '9' {
        9
    } else if c == 'a' || c == 'A' {
        10
    } else if c == 'b' || c == 'B' {
        11
    } else if c == 'c' || c == 'C' {
        12
    } else if c == 'd' || c == 'D' {
        13
    } else if c == 'e' || c == 'E' {
        14
    } else if c == 'f' || c == 'F' {
        15
    } else {
        -1
    }
}

/// Whether the character pair starting at position `2 * k` parses as a byte.
pub open spec fn spec_hex_pair_ok(s: Seq<char>, k: int) -> bool {
    spec_hex_val(s[2 * k]) >= 0 && spec_hex_val(s[2 * k + 1]) >= 0
}

/// The byte encoded by the character pair starting at position `2 * k`.
pub open spec fn spec_hex_pair_val(s: Seq<char>, k: int) -> int {
    spec_hex_val(s[2 * k]) * 16 + spec_hex_val(s[2 * k + 1])
}

fn hex_digit_str(d: u8) -> (r: &'static str)
    requires
        d < 16,
    ensures
        r@ == seq![spec_hex_digit(d as int)],
{
    if d < 10 {
        let r = crate::text::digit_str(d as u64);
        proof {
            assert(r@ =~= seq![spec_hex_digit(d as int)]);
        }
        r
    } else if d == 10 {
        proof {
            reveal_strlit("a");
            assert("a"@ =~= seq![spec_hex_digit(10)]);
        }
        "a"
    } else if d == 11 {
        proof {
            reveal_strlit("b");
            assert("b"@ =~= seq![spec_hex_digit(11)]);
        }
        "b"
    } else if d == 12 {
        proof {
            reveal_strlit("c");
            assert("c"@ =~= seq![spec_hex_digit(12)]);
        }
        "c"
    } else if d == 13 {
        proof {
            reveal_strlit("d");
            assert("d"@ =~= seq![spec_hex_digit(13)]);
        }
        "d"
    } else if d == 14 {
        proof {
            reveal_strlit("e");
            assert("e"@ =~= seq![spec_hex_digit(14)]);
        }
        "e"
    } else {
        proof {
            reveal_strlit("f");
            assert("f"@ =~= seq![spec_hex_digit(15)]);
        }
        "f"
    }
}

/// Converts bytes to their lowercase hex string representation.
pub fn bytes_to_hex(bytes: &[u8]) -> (r: String)
    ensures
        r@ == spec_hex_of(bytes@),
{
    let n = bytes.len();
    let mut r = String::new();
    let mut i: usize = 0;
    while i < n
        invariant
            i <= n,
            n == bytes@.len(),
            r@ == spec_hex_of(bytes@.take(i as int)),
        decreases n - i,
    {
        let b = bytes[i];
        let hi = b / 16;
        let lo = b % 16;
        r.append(hex_digit_str(hi));
        r.append(hex_digit_str(lo));
        proof {
            assert(bytes@.take(i + 1).drop_last() =~= bytes@.take(i as int));
            assert(bytes@.take(i + 1).last() == bytes@[i as int]);
        }
        i = i + 1;
    }
    proof {
        assert(bytes@.take(n as int) =~= bytes@);
    }
    r
}

fn hex_val(c: char) -> (r: Option<u8>)
    ensures
        r is Some <==> spec_hex_val(c) >= 0,
        r matches Some(v) ==> v == spec_hex_val(c),
{
    match c {
        '0' => Some(0),
        '1' => Some(1),
        '2' => Some(2),
        '3' => Some(3),
        '4' => Some(4),
        '5' => Some(5),
        '6' => Some(6),
        '7' => Some(7),
        '8' => Some(8),
        '9' => Some(9),
        'a' | 'A' => Some(10),
        'b' | 'B' => Some(11),
        'c' | 'C' => Some(12),
        'd' | 'D' => Some(13),
        'e' | 'E' => Some(14),
        'f' | 'F' => Some(15),
        _ => None,
    }
}

/// Parses a hex string to bytes. The string must have even length and hold
/// only hex digits; the error reports which requirement failed, and for a
/// bad digit, the position of the first pair that fails to parse.
pub fn hex_to_bytes(hex: &str) -> (r: Result<Vec<u8>, String>)
    ensures
        hex@.len() % 2 != 0 ==> (r matches Err(m) && m@ == "Hex string must have even length"@),
        r matches Ok(v) ==> hex@.len() % 2 == 0 && v@.len() * 2 == hex@.len() && forall|k: int|
            0 <= k < v@.len() ==> spec_hex_pair_ok(hex@, k) && v@[k] == spec_hex_pair_val(hex@, k),
        r matches Err(m) ==> (hex@.len() % 2 == 0 ==> exists|k: int|
            0 <= k && 2 * k < hex@.len() && !spec_hex_pair_ok(hex@, k) && (forall|j: int|
                0 <= j < k ==> spec_hex_pair_ok(hex@, j)) && m@
                == "Invalid hex character at position "@ + spec_decimal(2 * k)),
{
    let n = hex.unicode_len();
    if n % 2 != 0 {
        return Err(String::from_str("Hex string must have even length"));
    }
    let mut out: Vec<u8> = Vec::new();
    let mut k: usize = 0;
    while 2 * k < n
        invariant
            hex@.len() == n,
            n % 2 == 0,
            2 * k <= n,
            out@.len() == k,
            forall|j: int|
                0 <= j < k ==> spec_hex_pair_ok(hex@, j) && out@[j] == spec_hex_pair_val(hex@, j),
        decreases n - 2 * k,
    {
        let c_hi = hex.get_char(2 * k);
        let c_lo = hex.get_char(2 * k + 1);
        let hi = hex_val(c_hi);
        let lo = hex_val(c_lo);
        if hi.is_none() || lo.is_none() {
            let mut m = String::from_str("Invalid hex character at position ");
            m.append(decimal_string((2 * k) as u64).as_str());
            proof {
                let ki = k as int;
                assert(!spec_hex_pair_ok(hex@, ki));
                assert(forall|j: int| 0 <= j < ki ==> spec_hex_pair_ok(hex@, j));
                assert(m@ == "Invalid hex character at position "@ + spec_decimal(2 * ki));
            }
            return Err(m);
        }
        let b: u8 = hi.unwrap() * 16 + lo.unwrap();
        out.push(b);
        k = k + 1;
    }
    Ok(out)
}

/// Calculates a hash for a slice of bytes with the standard library's
/// default hasher; the result depends on the bytes alone.
pub fn simple_hash(data: &[u8]) -> (r: u64)
    ensures
        r == DefaultHasher::spec_finish(Seq::<Seq<u8>>::empty().push(data@)),
{
    let mut hasher = DefaultHasher::new();
    hasher.write(data);
    hasher.finish()
}

/// Pads bytes at the end with `pad_value` up to `length`; input longer than
/// `length` is returned unchanged.
pub fn pad_bytes(bytes: &[u8], length: usize, pad_value: u8) -> (r: Vec<u8>)
    ensures
        r@.len() == if bytes@.len() >= length {
            bytes@.len()
        } else {
            length as nat
        },
        forall|i: int| 0 <= i < bytes@.len() ==> r@[i] == bytes@[i],
        forall|i: int| bytes@.len() <= i < r@.len() ==> r@[i] == pad_value,
{
    let mut result: Vec<u8> = slice_to_vec(bytes);
    while result.len() < length
        invariant
            result@.len() >= bytes@.len(),
            forall|i: int| 0 <= i < bytes@.len() ==> result@[i] == bytes@[i],
            forall|i: int| bytes@.len() <= i < result@.len() ==> result@[i] == pad_value,
            result@.len() <= length || result@.len() == bytes@.len(),
        decreases length - result@.len(),
    {
        result.push(pad_value);
    }
    result
}

/// Truncates or pads bytes to exactly `length`, padding with `pad_value`.
pub fn truncate_or_pad(bytes: &[u8], length: usize, pad_value: u8) -> (r: Vec<u8>)
    ensures
        r@.len() == length,
        forall|i: int| 0 <= i < length && i < bytes@.len() ==> r@[i] == bytes@[i],
        forall|i: int| bytes@.len() <= i < length ==> r@[i] == pad_value,
{
    let mut result: Vec<u8> = Vec::new();
    let n = bytes.len();
    let mut i: usize = 0;
    while i < n && i < length
        invariant
            i <= n,
            i <= length,
            n == bytes@.len(),
            result@.len() == i,
            forall|j: int| 0 <= j < i ==> result@[j] == bytes@[j],
        decreases n - i,
    {
        result.push(bytes[i]);
        i = i + 1;
    }
    while result.len() < length
        invariant
            result@.len() >= i,
            i == if n <= length {
                n as int
            } else {
                length as int
            },
            n == bytes@.len(),
            forall|j: int| 0 <= j < i ==> result@[j] == bytes@[j],
            forall|j: int| i <= j < result@.len() ==> result@[j] == pad_value,
            result@.len() <= length || result@.len() == i,
        decreases length - result@.len(),
    {
        result.push(pad_value);
    }
    result
}

} // verus!
