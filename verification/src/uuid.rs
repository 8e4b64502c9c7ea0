//! A universally unique identifier naming a trusted application, stored as
//! the four fields of the ABI record in big-endian order: parsed from the
//! canonical hyphenated text form or from 16 raw bytes, rendered back to
//! canonical lowercase text.

use vstd::prelude::*;

use vstd::arithmetic::div_mod::lemma_fundamental_div_mod_converse;
use vstd::string::{StrSliceExecFns, StringExecFns};

use crate::error::{Error, Result};

verus! {

/// The value of a hexadecimal digit, with 16 as the sentinel for every
/// character that is no such digit.
pub open spec fn spec_hex_value(c: char) -> u8 {
    if c == '0' {
        0
    } else if c == '1' {
        1
    } else if c == '2' {
        2
    } else if c == '3' {
        3
    } else if c == '4' {
        4
    } else if c == '5' {
        5
    } else if c == '6' {
        6
    } else if c == '7' {
        7
    } else if c == '8' {
        8
    } else if c == '9' {
        9
    } else if c == 'a' || c == 'A' {
        10
    } else if c == 'b' || c == 'B' {
        11
    } else if c == 'c' || c == 'C' {
        12
    } else if c == 'd' || c == 'D' {
        13
    } else if c == 'e' || c == 'E' {
        14
    } else if c == 'f' || c == 'F' {
        15
    } else {
        16
    }
}

pub open spec fn spec_is_hex_digit(c: char) -> bool {
    spec_hex_value(c) < 16
}

/// The lowercase digit for a nibble value.
pub open spec fn spec_hex_char(n: u8) -> char {
    if n == 0 {
        '0'
    } else if n == 1 {
        '1'
    } else if n == 2 {
        '2'
    } else if n == 3 {
        '3'
    } else if n == 4 {
        '4'
    } else if n == 5 {
        '5'
    } else if n == 6 {
        '6'
    } else if n == 7 {
        '7'
    } else if n == 8 {
        '8'
    } else if n == 9 {
        '9'
    } else if n == 10 {
        'a'
    } else if n == 11 {
        'b'
    } else if n == 12 {
        'c'
    } else if n == 13 {
        'd'
    } else if n == 14 {
        'e'
    } else {
        'f'
    }
}

/// Uppercase hexadecimal digits lowered; every other character unchanged.
pub open spec fn spec_lower_hex(c: char) -> char {
    if c == 'A' {
        'a'
    } else if c == 'B' {
        'b'
    } else if c == 'C' {
        'c'
    } else if c == 'D' {
        'd'
    } else if c == 'E' {
        'e'
    } else if c == 'F' {
        'f'
    } else {
        c
    }
}

/// Rendering a digit's value gives the digit back, lowercased.
proof fn lemma_hex_digit_roundtrip(c: char)
    requires
        spec_is_hex_digit(c),
    ensures
        spec_hex_char(spec_hex_value(c)) == spec_lower_hex(c),
{
}

/// The lowercase hexadecimal expansion of a byte string: one pair of
/// digits per byte, high nibble first, in input order.
pub open spec fn spec_hex_of_bytes(b: Seq<u8>) -> Seq<char> {
    Seq::new(
        b.len() * 2,
        |i: int|
            if i % 2 == 0 {
                spec_hex_char((b[i / 2] / 16) as u8)
            } else {
                spec_hex_char((b[i / 2] % 16) as u8)
            },
    )
}

/// Relies on hex::encode: it writes exactly one pair of lowercase
/// hexadecimal digits per input byte, high nibble first, in input order.
#[verifier::external_body]
fn hex_encode(bytes: &Vec<u8>) -> (r: String)
    ensures
        r@ == spec_hex_of_bytes(bytes@),
{
    hex::encode(bytes)
}

/// The canonical text form puts its hyphens at these four positions.
pub open spec fn spec_is_hyphen_index(i: int) -> bool {
    i == 8 || i == 13 || i == 18 || i == 23
}

/// How many hyphens stand before position `i` of the canonical text.
pub open spec fn spec_hyphens_before(i: int) -> int {
    (if i > 8 {
        1int
    } else {
        0int
    }) + (if i > 13 {
        1int
    } else {
        0int
    }) + (if i > 18 {
        1int
    } else {
        0int
    }) + (if i > 23 {
        1int
    } else {
        0int
    })
}

/// The position of the k-th hexadecimal digit in the canonical text.
pub open spec fn spec_hex_index(k: int) -> int {
    k + (if k >= 8 {
        1int
    } else {
        0int
    }) + (if k >= 12 {
        1int
    } else {
        0int
    }) + (if k >= 16 {
        1int
    } else {
        0int
    }) + (if k >= 20 {
        1int
    } else {
        0int
    })
}

/// Every digit position of the canonical text lies in bounds and on no
/// hyphen.
proof fn lemma_hex_index_ok(k: int)
    requires
        0 <= k < 32,
    ensures
        0 <= spec_hex_index(k) < 36,
        !spec_is_hyphen_index(spec_hex_index(k)),
{
}

/// Every non-hyphen position of the canonical text is the position of
/// exactly one digit.
proof fn lemma_nonhyphen_is_hex_position(i: int)
    requires
        0 <= i < 36,
        !spec_is_hyphen_index(i),
    ensures
        0 <= i - spec_hyphens_before(i) < 32,
        spec_hex_index(i - spec_hyphens_before(i)) == i,
{
}

/// Canonical hyphenated identifier text: 36 characters, hyphens exactly at
/// their four fixed positions, hexadecimal digits everywhere else.
pub open spec fn spec_is_canonical_uuid_text(s: Seq<char>) -> bool {
    &&& s.len() == 36
    &&& forall|i: int| 0 <= i < 36 && spec_is_hyphen_index(i) ==> #[trigger] s[i] == '-'
    &&& forall|i: int|
        0 <= i < 36 && !spec_is_hyphen_index(i) ==> spec_is_hex_digit(#[trigger] s[i])
}

/// The 16 bytes denoted by canonical identifier text.
pub open spec fn spec_parsed_bytes(s: Seq<char>) -> Seq<u8> {
    Seq::new(
        16,
        |j: int|
            (spec_hex_value(s[spec_hex_index(2 * j)]) * 16 + spec_hex_value(
                s[spec_hex_index(2 * j + 1)],
            )) as u8,
    )
}

/// The hexadecimal value of a character, or nothing where it is no digit.
fn hex_value_of(c: char) -> (r: Option<u8>)
    ensures
        r matches Some(v) ==> spec_is_hex_digit(c) && v == spec_hex_value(c),
        r is None ==> !spec_is_hex_digit(c),
{
    match c {
        '0' => Some(0u8),
        '1' => Some(1u8),
        '2' => Some(2u8),
        '3' => Some(3u8),
        '4' => Some(4u8),
        '5' => Some(5u8),
        '6' => Some(6u8),
        '7' => Some(7u8),
        '8' => Some(8u8),
        '9' => Some(9u8),
        'a' => Some(10u8),
        'b' => Some(11u8),
        'c' => Some(12u8),
        'd' => Some(13u8),
        'e' => Some(14u8),
        'f' => Some(15u8),
        'A' => Some(10u8),
        'B' => Some(11u8),
        'C' => Some(12u8),
        'D' => Some(13u8),
        'E' => Some(14u8),
        'F' => Some(15u8),
        _ => None,
    }
}

/// The position of the k-th digit in the canonical text.
fn hex_index(k: usize) -> (r: usize)
    requires
        k < 32,
    ensures
        r as int == spec_hex_index(k as int),
        r < 36,
    {
    let mut r = k;
    if k >= 8 {
        r = r + 1;
    }
    if k >= 12 {
        r = r + 1;
    }
    if k >= 16 {
        r = r + 1;
    }
    if k >= 20 {
        r = r + 1;
    }
    r
}

/// Dividing a big-endian 32-bit composition back down recovers each byte.
proof fn lemma_be32_decompose(v: int, b0: int, b1: int, b2: int, b3: int)
    requires
        0 <= b0 < 0x100,
        0 <= b1 < 0x100,
        0 <= b2 < 0x100,
        0 <= b3 < 0x100,
        v == b0 * 0x1000000 + b1 * 0x10000 + b2 * 0x100 + b3,
    ensures
        0 <= v < 0x100000000,
        v / 0x1000000 == b0,
        (v / 0x10000) % 0x100 == b1,
        (v / 0x100) % 0x100 == b2,
        v % 0x100 == b3,
{
    assert(v == (b0 * 0x100 + b1) * 0x10000 + (b2 * 0x100 + b3)) by (nonlinear_arith)
        requires
            v == b0 * 0x1000000 + b1 * 0x10000 + b2 * 0x100 + b3,
    ;
    assert(v == (b0 * 0x10000 + b1 * 0x100 + b2) * 0x100 + b3) by (nonlinear_arith)
        requires
            v == b0 * 0x1000000 + b1 * 0x10000 + b2 * 0x100 + b3,
    ;
    lemma_fundamental_div_mod_converse(v, 0x1000000, b0, b1 * 0x10000 + b2 * 0x100 + b3);
    lemma_fundamental_div_mod_converse(v, 0x10000, b0 * 0x100 + b1, b2 * 0x100 + b3);
    lemma_fundamental_div_mod_converse(b0 * 0x100 + b1, 0x100, b0, b1);
    lemma_fundamental_div_mod_converse(v, 0x100, b0 * 0x10000 + b1 * 0x100 + b2, b3);
    lemma_fundamental_div_mod_converse(b0 * 0x10000 + b1 * 0x100 + b2, 0x100, b0 * 0x100 + b1, b2);
}

/// Dividing a big-endian 16-bit composition back down recovers each byte.
proof fn lemma_be16_decompose(v: int, b0: int, b1: int)
    requires
        0 <= b0 < 0x100,
        0 <= b1 < 0x100,
        v == b0 * 0x100 + b1,
    ensures
        0 <= v < 0x10000,
        v / 0x100 == b0,
        v % 0x100 == b1,
{
    lemma_fundamental_div_mod_converse(v, 0x100, b0, b1);
}

/// A universally unique identifier of a trusted application: 32-bit low
/// field, two 16-bit fields, and the 8-byte clock-sequence-and-node tail.
/// Immutable once constructed; equality is structural.
#[derive(Clone, Copy, Debug, PartialEq, Eq)]
pub struct Uuid {
    time_low: u32,
    time_mid: u16,
    time_hi_and_version: u16,
    clock_seq_and_node: [u8; 8],
}

/// The big-endian 32-bit value read at offset `i` of `b`.
pub open spec fn spec_be32(b: Seq<u8>, i: int) -> u32
    recommends
        0 <= i,
        i + 4 <= b.len(),
{
    (b[i] * 0x1000000 + b[i + 1] * 0x10000 + b[i + 2] * 0x100 + b[i + 3]) as u32
}

/// The big-endian 16-bit value read at offset `i` of `b`.
pub open spec fn spec_be16(b: Seq<u8>, i: int) -> u16
    recommends
        0 <= i,
        i + 2 <= b.len(),
{
    (b[i] * 0x100 + b[i + 1]) as u16
}

impl Uuid {
    pub closed spec fn spec_time_low(&self) -> u32 {
        self.time_low
    }

    pub closed spec fn spec_time_mid(&self) -> u16 {
        self.time_mid
    }

    pub closed spec fn spec_time_hi_and_version(&self) -> u16 {
        self.time_hi_and_version
    }

    pub closed spec fn spec_clock_seq_and_node(&self) -> Seq<u8> {
        self.clock_seq_and_node@
    }

    /// The 16 bytes of the identifier in big-endian order.
    pub open spec fn spec_bytes(&self) -> Seq<u8> {
        seq![
            (self.spec_time_low() / 0x1000000) as u8,
            ((self.spec_time_low() / 0x10000) % 0x100) as u8,
            ((self.spec_time_low() / 0x100) % 0x100) as u8,
            (self.spec_time_low() % 0x100) as u8,
            (self.spec_time_mid() / 0x100) as u8,
            (self.spec_time_mid() % 0x100) as u8,
            (self.spec_time_hi_and_version() / 0x100) as u8,
            (self.spec_time_hi_and_version() % 0x100) as u8,
        ] + self.spec_clock_seq_and_node()
    }

    /// The canonical lowercase hyphenated text of this identifier.
    pub open spec fn spec_canonical(&self) -> Seq<char> {
        Seq::new(
            36,
            |i: int|
                if spec_is_hyphen_index(i) {
                    '-'
                } else {
                    spec_hex_of_bytes(self.spec_bytes())[i - spec_hyphens_before(i)]
                },
        )
    }

    /// Parses an identifier from its canonical hyphenated text: 36
    /// characters with hyphens at the four fixed positions and hexadecimal
    /// digits elsewhere, upper or lower case. Exactly the malformed texts
    /// are rejected, with a parse error.
    pub fn parse_str(input: &str) -> (r: Result<Uuid>)
        ensures
            match r {
                Ok(u) => spec_is_canonical_uuid_text(input@) && u.spec_bytes()
                    == spec_parsed_bytes(input@),
                Err(e) => !spec_is_canonical_uuid_text(input@) && e == Error::ParseError,
            },
    {
        if input.unicode_len() != 36 {
            return Err(Error::ParseError);
        }
        if input.get_char(8) != '-' || input.get_char(13) != '-' || input.get_char(18) != '-'
            || input.get_char(23) != '-' {
            return Err(Error::ParseError);
        }
        let mut bytes_vec: Vec<u8> = Vec::new();
        let mut j: usize = 0;
        while j < 16
            invariant
                input@.len() == 36,
                j <= 16,
                bytes_vec@.len() == j,
                forall|t: int|
                    0 <= t < j ==> bytes_vec@[t] == (spec_hex_value(
                        input@[spec_hex_index(2 * t)],
                    ) * 16 + spec_hex_value(input@[spec_hex_index(2 * t + 1)])) as u8,
                forall|k: int|
                    0 <= k < 2 * j ==> spec_is_hex_digit(#[trigger] input@[spec_hex_index(k)]),
            decreases 16 - j,
        {
            let hi_pos = hex_index(2 * j);
            let lo_pos = hex_index(2 * j + 1);
            let hi = match hex_value_of(input.get_char(hi_pos)) {
                Some(v) => v,
                None => {
                    proof {
                        lemma_hex_index_ok(2 * j as int);
                    }
                    return Err(Error::ParseError);
                },
            };
            let lo = match hex_value_of(input.get_char(lo_pos)) {
                Some(v) => v,
                None => {
                    proof {
                        lemma_hex_index_ok(2 * j as int + 1);
                    }
                    return Err(Error::ParseError);
                },
            };
            bytes_vec.push(hi * 16 + lo);
            j = j + 1;
        }
        proof {
            assert forall|i: int|
                0 <= i < 36 && !spec_is_hyphen_index(i) implies spec_is_hex_digit(
                #[trigger] input@[i],
            ) by {
                lemma_nonhyphen_is_hex_position(i);
                let k = i - spec_hyphens_before(i);
                assert(spec_is_hex_digit(input@[spec_hex_index(k)]));
            }
            assert(bytes_vec@ =~= spec_parsed_bytes(input@));
        }
        match Self::from_slice(bytes_vec.as_slice()) {
            Ok(u) => Ok(u),
            Err(_) => {
                proof {
                    assert(false);
                }
                Err(Error::ParseError)
            },
        }
    }

    /// Renders the canonical lowercase hyphenated text of this identifier.
    pub fn to_canonical_string(&self) -> (s: String)
        ensures
            s@ == self.spec_canonical(),
    {
        let bytes = self.to_bytes();
        let mut g0: Vec<u8> = Vec::new();
        g0.push(bytes[0]);
        g0.push(bytes[1]);
        g0.push(bytes[2]);
        g0.push(bytes[3]);
        let mut g1: Vec<u8> = Vec::new();
        g1.push(bytes[4]);
        g1.push(bytes[5]);
        let mut g2: Vec<u8> = Vec::new();
        g2.push(bytes[6]);
        g2.push(bytes[7]);
        let mut g3: Vec<u8> = Vec::new();
        g3.push(bytes[8]);
        g3.push(bytes[9]);
        let mut g4: Vec<u8> = Vec::new();
        g4.push(bytes[10]);
        g4.push(bytes[11]);
        g4.push(bytes[12]);
        g4.push(bytes[13]);
        g4.push(bytes[14]);
        g4.push(bytes[15]);
        proof {
            assert(g0@ =~= self.spec_bytes().subrange(0, 4));
            assert(g1@ =~= self.spec_bytes().subrange(4, 6));
            assert(g2@ =~= self.spec_bytes().subrange(6, 8));
            assert(g3@ =~= self.spec_bytes().subrange(8, 10));
            assert(g4@ =~= self.spec_bytes().subrange(10, 16));
        }
        let h1 = hex_encode(&g1);
        let h2 = hex_encode(&g2);
        let h3 = hex_encode(&g3);
        let h4 = hex_encode(&g4);
        let mut out = hex_encode(&g0);
        out.append("-");
        out.append(h1.as_str());
        out.append("-");
        out.append(h2.as_str());
        out.append("-");
        out.append(h3.as_str());
        out.append("-");
        out.append(h4.as_str());
        proof {
            reveal_strlit("-");
            let b = self.spec_bytes();
            assert forall|i: int| 0 <= i < 36 implies out@[i] == self.spec_canonical()[i] by {
                if i < 8 {
                    lemma_hex_of_subrange(b, 0, 4, i);
                } else if i == 8 {
                } else if i < 13 {
                    lemma_hex_of_subrange(b, 4, 6, i - 9);
                } else if i == 13 {
                } else if i < 18 {
                    lemma_hex_of_subrange(b, 6, 8, i - 14);
                } else if i == 18 {
                } else if i < 23 {
                    lemma_hex_of_subrange(b, 8, 10, i - 19);
                } else if i == 23 {
                } else {
                    lemma_hex_of_subrange(b, 10, 16, i - 24);
                }
            }
            assert(out@ =~= self.spec_canonical());
        }
        out
    }

    /// Creates an identifier from the four raw record fields. Infallible.
    pub fn new_raw(
        time_low: u32,
        time_mid: u16,
        time_hi_and_version: u16,
        clock_seq_and_node: [u8; 8],
    ) -> (r: Uuid)
        ensures
            r.spec_time_low() == time_low,
            r.spec_time_mid() == time_mid,
            r.spec_time_hi_and_version() == time_hi_and_version,
            r.spec_clock_seq_and_node() == clock_seq_and_node@,
    {
        Uuid { time_low, time_mid, time_hi_and_version, clock_seq_and_node }
    }

    /// Creates an identifier from 16 big-endian bytes: each field is read
    /// exactly at its offset, so extracting the fields recovers the input.
    pub fn from_bytes(bytes: [u8; 16]) -> (r: Uuid)
        ensures
            r.spec_time_low() == spec_be32(bytes@, 0),
            r.spec_time_mid() == spec_be16(bytes@, 4),
            r.spec_time_hi_and_version() == spec_be16(bytes@, 6),
            r.spec_clock_seq_and_node() == bytes@.subrange(8, 16),
            r.spec_bytes() == bytes@,
    {
        let time_low = (bytes[0] as u32) * 0x1000000 + (bytes[1] as u32) * 0x10000 + (
        bytes[2] as u32) * 0x100 + (bytes[3] as u32);
        let time_mid = (bytes[4] as u16) * 0x100 + (bytes[5] as u16);
        let time_hi_and_version = (bytes[6] as u16) * 0x100 + (bytes[7] as u16);
        let clock_seq_and_node: [u8; 8] = [
            bytes[8],
            bytes[9],
            bytes[10],
            bytes[11],
            bytes[12],
            bytes[13],
            bytes[14],
            bytes[15],
        ];
        let r = Uuid { time_low, time_mid, time_hi_and_version, clock_seq_and_node };
        proof {
            lemma_be32_decompose(
                time_low as int,
                bytes@[0] as int,
                bytes@[1] as int,
                bytes@[2] as int,
                bytes@[3] as int,
            );
            lemma_be16_decompose(time_mid as int, bytes@[4] as int, bytes@[5] as int);
            lemma_be16_decompose(
                time_hi_and_version as int,
                bytes@[6] as int,
                bytes@[7] as int,
            );
            assert(r.spec_bytes() =~= bytes@);
        }
        r
    }

    /// Creates an identifier from a slice of big-endian bytes. A slice
    /// whose length is not 16 is rejected with a parse error; on exactly 16
    /// bytes this reads the same fields as `from_bytes`.
    pub fn from_slice(b: &[u8]) -> (r: Result<Uuid>)
        ensures
            match r {
                Ok(u) => b@.len() == 16 && u.spec_bytes() == b@,
                Err(e) => b@.len() != 16 && e == Error::ParseError,
            },
    {
        if b.len() != 16 {
            return Err(Error::ParseError);
        }
        let time_low = (b[0] as u32) * 0x1000000 + (b[1] as u32) * 0x10000 + (b[2] as u32) * 0x100
            + (b[3] as u32);
        let time_mid = (b[4] as u16) * 0x100 + (b[5] as u16);
        let time_hi_and_version = (b[6] as u16) * 0x100 + (b[7] as u16);
        let clock_seq_and_node: [u8; 8] = [b[8], b[9], b[10], b[11], b[12], b[13], b[14], b[15]];
        let r = Uuid { time_low, time_mid, time_hi_and_version, clock_seq_and_node };
        proof {
            lemma_be32_decompose(
                time_low as int,
                b@[0] as int,
                b@[1] as int,
                b@[2] as int,
                b@[3] as int,
            );
            lemma_be16_decompose(time_mid as int, b@[4] as int, b@[5] as int);
            lemma_be16_decompose(time_hi_and_version as int, b@[6] as int, b@[7] as int);
            assert(r.spec_bytes() =~= b@);
        }
        Ok(r)
    }

    /// The four record fields, as they were constructed.
    pub fn as_fields(&self) -> (r: (u32, u16, u16, [u8; 8]))
        ensures
            r.0 == self.spec_time_low(),
            r.1 == self.spec_time_mid(),
            r.2 == self.spec_time_hi_and_version(),
            r.3@ == self.spec_clock_seq_and_node(),
    {
        (self.time_low, self.time_mid, self.time_hi_and_version, self.clock_seq_and_node)
    }

    /// The 16 bytes of the identifier in big-endian order.
    pub fn to_bytes(&self) -> (r: Vec<u8>)
        ensures
            r@ == self.spec_bytes(),
    {
        let mut out: Vec<u8> = Vec::new();
        out.push((self.time_low / 0x1000000) as u8);
        out.push(((self.time_low / 0x10000) % 0x100) as u8);
        out.push(((self.time_low / 0x100) % 0x100) as u8);
        out.push((self.time_low % 0x100) as u8);
        out.push((self.time_mid / 0x100) as u8);
        out.push((self.time_mid % 0x100) as u8);
        out.push((self.time_hi_and_version / 0x100) as u8);
        out.push((self.time_hi_and_version % 0x100) as u8);
        proof {
            assert(out@ =~= self.spec_bytes().subrange(0, 8));
        }
        let mut i: usize = 0;
        while i < 8
            invariant
                i <= 8,
                out@.len() == 8 + i,
                out@.subrange(0, 8) =~= self.spec_bytes().subrange(0, 8),
                forall|j: int| 0 <= j < i ==> out@[8 + j] == self.spec_clock_seq_and_node()[j],
            decreases 8 - i,
        {
            out.push(self.clock_seq_and_node[i]);
            i = i + 1;
        }
        proof {
            assert(self.spec_clock_seq_and_node().len() == 8);
            assert forall|k: int| 0 <= k < 16 implies out@[k] == self.spec_bytes()[k] by {
                if k < 8 {
                    assert(out@[k] == out@.subrange(0, 8)[k]);
                    assert(self.spec_bytes()[k] == self.spec_bytes().subrange(0, 8)[k]);
                }
            }
            assert(out@ =~= self.spec_bytes());
        }
        out
    }
}

/// A digit pair of the expansion of a subrange is the same digit pair of
/// the expansion of the whole, shifted along.
proof fn lemma_hex_of_subrange(b: Seq<u8>, p: int, q: int, m: int)
    requires
        0 <= p <= q <= b.len(),
        0 <= m < 2 * (q - p),
    ensures
        spec_hex_of_bytes(b.subrange(p, q))[m] == spec_hex_of_bytes(b)[2 * p + m],
{
    assert(m == 2 * (m / 2) + m % 2) by {
        vstd::arithmetic::div_mod::lemma_fundamental_div_mod(m, 2);
    }
    lemma_fundamental_div_mod_converse(2 * p + m, 2, p + m / 2, m % 2);
}

/// Every lowercase digit carries its own value.
proof fn lemma_hex_char_value(n: u8)
    requires
        n < 16,
    ensures
        spec_is_hex_digit(spec_hex_char(n)),
        spec_hex_value(spec_hex_char(n)) == n,
{
}

/// The digit position map and the hyphen count are inverse to one another.
proof fn lemma_hex_index_inverse(k: int)
    requires
        0 <= k < 32,
    ensures
        spec_hyphens_before(spec_hex_index(k)) == spec_hex_index(k) - k,
{
}

/// Rendered canonical text is itself canonical, and parsing it back gives
/// the identifier's own bytes: rendering loses nothing either way.
pub proof fn lemma_render_then_parse(u: Uuid)
    ensures
        spec_is_canonical_uuid_text(u.spec_canonical()),
        spec_parsed_bytes(u.spec_canonical()) == u.spec_bytes(),
{
    let s = u.spec_canonical();
    let b = u.spec_bytes();
    assert(b.len() == 16);
    assert forall|i: int|
        0 <= i < 36 && !spec_is_hyphen_index(i) implies spec_is_hex_digit(#[trigger] s[i]) by {
        lemma_nonhyphen_is_hex_position(i);
        let k = i - spec_hyphens_before(i);
        assert(k == 2 * (k / 2) + k % 2) by {
            vstd::arithmetic::div_mod::lemma_fundamental_div_mod(k, 2);
        }
        if k % 2 == 0 {
            lemma_hex_char_value((b[k / 2] / 16) as u8);
        } else {
            lemma_hex_char_value((b[k / 2] % 16) as u8);
        }
    }
    assert forall|j: int| 0 <= j < 16 implies spec_parsed_bytes(s)[j] == b[j] by {
        lemma_hex_index_ok(2 * j);
        lemma_hex_index_ok(2 * j + 1);
        lemma_hex_index_inverse(2 * j);
        lemma_hex_index_inverse(2 * j + 1);
        lemma_fundamental_div_mod_converse(2 * j, 2, j, 0);
        lemma_fundamental_div_mod_converse(2 * j + 1, 2, j, 1);
        let hi_pos = spec_hex_index(2 * j);
        let lo_pos = spec_hex_index(2 * j + 1);
        assert(s[hi_pos] == spec_hex_of_bytes(b)[2 * j]);
        assert(s[lo_pos] == spec_hex_of_bytes(b)[2 * j + 1]);
        lemma_hex_char_value((b[j] / 16) as u8);
        lemma_hex_char_value((b[j] % 16) as u8);
        vstd::arithmetic::div_mod::lemma_fundamental_div_mod(b[j] as int, 16);
    }
    assert(spec_parsed_bytes(s) =~= b);
}

/// Parsing canonical identifier text and rendering the parsed identifier
/// gives back the same text, with its hexadecimal digits lowercased: the
/// round trip canonicalizes and loses nothing.
pub proof fn lemma_parse_then_render(s: Seq<char>, u: Uuid)
    requires
        spec_is_canonical_uuid_text(s),
        u.spec_bytes() == spec_parsed_bytes(s),
    ensures
        u.spec_canonical() == Seq::new(36, |i: int| spec_lower_hex(s[i])),
{
    assert forall|i: int| 0 <= i < 36 implies u.spec_canonical()[i] == spec_lower_hex(s[i]) by {
        if spec_is_hyphen_index(i) {
            assert(s[i] == '-');
        } else {
            lemma_nonhyphen_is_hex_position(i);
            let k = i - spec_hyphens_before(i);
            assert(k == 2 * (k / 2) + k % 2) by {
                vstd::arithmetic::div_mod::lemma_fundamental_div_mod(k, 2);
            }
            let j = k / 2;
            let c_hi = s[spec_hex_index(2 * j)];
            let c_lo = s[spec_hex_index(2 * j + 1)];
            lemma_hex_index_ok(2 * j);
            lemma_hex_index_ok(2 * j + 1);
            assert(spec_is_hex_digit(c_hi));
            assert(spec_is_hex_digit(c_lo));
            lemma_fundamental_div_mod_converse(
                spec_hex_value(c_hi) * 16 + spec_hex_value(c_lo),
                16,
                spec_hex_value(c_hi) as int,
                spec_hex_value(c_lo) as int,
            );
            lemma_hex_digit_roundtrip(c_hi);
            lemma_hex_digit_roundtrip(c_lo);
            if k % 2 == 0 {
                assert(spec_hex_index(2 * j) == i);
            } else {
                assert(spec_hex_index(2 * j + 1) == i);
            }
        }
    }
    assert(u.spec_canonical() =~= Seq::new(36, |i: int| spec_lower_hex(s[i])));
}

/// Reading the big-endian fields back from the bytes a `Uuid` writes
/// recovers the fields themselves.
pub proof fn lemma_bytes_fields_roundtrip(u: Uuid)
    ensures
        spec_be32(u.spec_bytes(), 0) == u.spec_time_low(),
        spec_be16(u.spec_bytes(), 4) == u.spec_time_mid(),
        spec_be16(u.spec_bytes(), 6) == u.spec_time_hi_and_version(),
        u.spec_bytes().subrange(8, 16) == u.spec_clock_seq_and_node(),
{
    assert(u.spec_bytes().subrange(8, 16) =~= u.spec_clock_seq_and_node());
    let tl = u.spec_time_low() as int;
    assert((tl / 0x1000000) * 0x1000000 + ((tl / 0x10000) % 0x100) * 0x10000 + ((tl / 0x100)
        % 0x100) * 0x100 + tl % 0x100 == tl) by (nonlinear_arith)
        requires
            0 <= tl < 0x100000000,
    ;
    let tm = u.spec_time_mid() as int;
    assert((tm / 0x100) * 0x100 + tm % 0x100 == tm) by (nonlinear_arith)
        requires
            0 <= tm < 0x10000,
    ;
    let th = u.spec_time_hi_and_version() as int;
    assert((th / 0x100) * 0x100 + th % 0x100 == th) by (nonlinear_arith)
        requires
            0 <= th < 0x10000,
    ;
}

} // verus!
