//! Ed25519 keys as 43 characters of unpadded canonical url-safe base64, and as 64 characters of
//! lower-hex.
use super::error::Error;
use vstd::prelude::*;

verus! {

/// The url-safe base64 character of a six-bit value.
pub open spec fn b64_char(v: u8) -> u8 {
    if v < 26 {
        (65 + v) as u8
    } else if v < 52 {
        (97 + v - 26) as u8
    } else if v < 62 {
        (48 + v - 52) as u8
    } else if v == 62 {
        45u8
    } else {
        95u8
    }
}

/// The six-bit value of a url-safe base64 character, if it is one.
pub open spec fn b64_val(c: u8) -> Option<u8> {
    if 65 <= c <= 90 {
        Some((c - 65) as u8)
    } else if 97 <= c <= 122 {
        Some((c - 97 + 26) as u8)
    } else if 48 <= c <= 57 {
        Some((c - 48 + 52) as u8)
    } else if c == 45 {
        Some(62u8)
    } else if c == 95 {
        Some(63u8)
    } else {
        None
    }
}

/// Byte `i` of `b`, or zero past its end.
pub open spec fn byte_or_zero(b: Seq<u8>, i: int) -> u8 {
    if 0 <= i < b.len() {
        b[i]
    } else {
        0
    }
}

/// Sextet `j` of the group of three bytes `b0`, `b1`, `b2`.
pub open spec fn group_sextet(b0: u8, b1: u8, b2: u8, j: int) -> u8 {
    if j == 0 {
        b0 >> 2
    } else if j == 1 {
        ((b0 & 3) << 4) | (b1 >> 4)
    } else if j == 2 {
        ((b1 & 15) << 2) | (b2 >> 6)
    } else {
        b2 & 63
    }
}

/// Sextet `k` of the bytes `b`, read in groups of three bytes, zero-padded.
pub open spec fn sextet(b: Seq<u8>, k: int) -> u8 {
    group_sextet(
        byte_or_zero(b, 3 * (k / 4)),
        byte_or_zero(b, 3 * (k / 4) + 1),
        byte_or_zero(b, 3 * (k / 4) + 2),
        k % 4,
    )
}

/// The 43 base64 characters of 32 bytes.
pub open spec fn base64_of(b: Seq<u8>) -> Seq<u8> {
    Seq::new(43, |k: int| b64_char(sextet(b, k)))
}

/// Whether every character is a url-safe base64 character.
pub open spec fn all_b64(s: Seq<u8>) -> bool {
    forall|k: int| 0 <= k < s.len() ==> #[trigger] b64_val(s[k]) is Some
}

/// The six-bit value of character `k`, or zero.
pub open spec fn sval(s: Seq<u8>, k: int) -> u8 {
    if 0 <= k < s.len() {
        match b64_val(s[k]) {
            Some(v) => v,
            None => 0,
        }
    } else {
        0
    }
}

/// Byte `m` of the group of four sextets `s0` to `s3`.
pub open spec fn group_byte(s0: u8, s1: u8, s2: u8, s3: u8, m: int) -> u8 {
    if m == 0 {
        (s0 << 2) | (s1 >> 4)
    } else if m == 1 {
        ((s1 & 15) << 4) | (s2 >> 2)
    } else {
        ((s2 & 3) << 6) | s3
    }
}

/// Byte `i` decoded from the base64 characters `s`.
pub open spec fn decoded_byte(s: Seq<u8>, i: int) -> u8 {
    group_byte(
        sval(s, 4 * (i / 3)),
        sval(s, 4 * (i / 3) + 1),
        sval(s, 4 * (i / 3) + 2),
        sval(s, 4 * (i / 3) + 3),
        i % 3,
    )
}

/// The 32 bytes that the 43 base64 characters `s` decode to.
pub open spec fn base64_bytes(s: Seq<u8>) -> Seq<u8> {
    Seq::new(32, |i: int| decoded_byte(s, i))
}

/// Whether the two extra bits of the final character are zero.
pub open spec fn b64_extra_bits_zero(s: Seq<u8>) -> bool {
    sval(s, 42) & 3 == 0
}

/// The url-safe base64 character of a six-bit value.
fn base64_encode_char(v: u8) -> (c: u8)
    requires
        v < 64,
    ensures
        c == b64_char(v),
{
    if v < 26 {
        65 + v
    } else if v < 52 {
        97 + v - 26
    } else if v < 62 {
        48 + v - 52
    } else if v == 62 {
        45
    } else {
        95
    }
}

/// The sextets of a group are six-bit values.
proof fn lemma_group_sextets_small(b0: u8, b1: u8, b2: u8)
    ensures
        group_sextet(b0, b1, b2, 0) < 64,
        group_sextet(b0, b1, b2, 1) < 64,
        group_sextet(b0, b1, b2, 2) < 64,
        group_sextet(b0, b1, b2, 3) < 64,
{
    assert(b0 >> 2 < 64) by (bit_vector);
    assert(((b0 & 3) << 4) | (b1 >> 4) < 64) by (bit_vector);
    assert(((b1 & 15) << 2) | (b2 >> 6) < 64) by (bit_vector);
    assert(b2 & 63 < 64) by (bit_vector);
}

/// Encode 32 bytes as 43 characters of unpadded url-safe base64, with the two extra bits zero.
pub fn base64_encode(bytes: [u8; 32]) -> (r: [u8; 43])
    ensures
        r@ == base64_of(bytes@),
{
    let mut output: [u8; 43] = [0u8; 43];
    let mut g: usize = 0;
    while g < 11
        invariant
            g <= 11,
            output@.len() == 43,
            forall|k: int| 0 <= k < 4 * g && k < 43 ==> #[trigger] output@[k] == b64_char(sextet(bytes@, k)),
        decreases 11 - g,
    {
        let b0 = bytes[3 * g];
        let b1 = bytes[3 * g + 1];
        let b2: u8 = if g < 10 { bytes[3 * g + 2] } else { 0 };
        proof {
            lemma_group_sextets_small(b0, b1, b2);
        }
        let ghost before = output@;
        output[4 * g] = base64_encode_char(b0 >> 2);
        output[4 * g + 1] = base64_encode_char(((b0 & 3) << 4) | (b1 >> 4));
        output[4 * g + 2] = base64_encode_char(((b1 & 15) << 2) | (b2 >> 6));
        if g < 10 {
            output[4 * g + 3] = base64_encode_char(b2 & 63);
        }
        proof {
            assert forall|k: int| 0 <= k < 4 * (g + 1) && k < 43 implies #[trigger] output@[k] == b64_char(sextet(bytes@, k)) by {
                if k >= 4 * g {
                    assert(k / 4 == g);
                    assert(byte_or_zero(bytes@, 3 * (k / 4)) == b0);
                    assert(byte_or_zero(bytes@, 3 * (k / 4) + 1) == b1);
                    assert(byte_or_zero(bytes@, 3 * (k / 4) + 2) == b2);
                } else {
                    assert(output@[k] == before[k]);
                }
            }
        }
        g = g + 1;
    }
    assert(output@ =~= base64_of(bytes@));
    output
}

/// The six-bit value of a url-safe base64 character.
fn base64_decode_char(c: u8) -> (r: Result<u8, Error>)
    ensures
        match b64_val(c) {
            Some(v) => r == Ok::<u8, Error>(v),
            None => r == Err::<u8, Error>(Error::Base64IllegalCharacter),
        },
{
    if c >= 65 && c <= 90 {
        Ok(c - 65)
    } else if c >= 97 && c <= 122 {
        Ok(c - 97 + 26)
    } else if c >= 48 && c <= 57 {
        Ok(c - 48 + 52)
    } else if c == 45 {
        Ok(62)
    } else if c == 95 {
        Ok(63)
    } else {
        Err(Error::Base64IllegalCharacter)
    }
}

/// Decode 43 characters of unpadded canonical url-safe base64 into 32 bytes: wrong length,
/// then an illegal character, then non-zero extra bits are errors, in that order.
pub fn base64_decode(base64: &[u8]) -> (r: Result<[u8; 32], Error>)
    ensures
        base64@.len() != 43 ==> r == Err::<[u8; 32], Error>(Error::Base64WrongLength),
        base64@.len() == 43 && !all_b64(base64@) ==> r == Err::<[u8; 32], Error>(
            Error::Base64IllegalCharacter,
        ),
        base64@.len() == 43 && all_b64(base64@) && !b64_extra_bits_zero(base64@) ==> r == Err::<
            [u8; 32],
            Error,
        >(Error::Base64ExtraBits),
        base64@.len() == 43 && all_b64(base64@) && b64_extra_bits_zero(base64@) ==> (r matches Ok(
            b,
        ) && b@ == base64_bytes(base64@)),
{
    if base64.len() != 43 {
        return Err(Error::Base64WrongLength);
    }
    // every character must be in the alphabet
    let mut k: usize = 0;
    while k < 43
        invariant
            base64@.len() == 43,
            k <= 43,
            forall|q: int| 0 <= q < k ==> #[trigger] b64_val(base64@[q]) is Some,
        decreases 43 - k,
    {
        match base64_decode_char(base64[k]) {
            Ok(_) => {},
            Err(e) => {
                return Err(e);
            },
        }
        k = k + 1;
    }
    let mut bytes: [u8; 32] = [0u8; 32];
    let mut g: usize = 0;
    while g < 11
        invariant
            base64@.len() == 43,
            all_b64(base64@),
            g <= 11,
            g == 11 ==> b64_extra_bits_zero(base64@),
            bytes@.len() == 32,
            forall|i: int| 0 <= i < 3 * g && i < 32 ==> #[trigger] bytes@[i] == decoded_byte(base64@, i),
        decreases 11 - g,
    {
        let s0 = match base64_decode_char(base64[4 * g]) { Ok(v) => v, Err(_) => 0 };
        let s1 = match base64_decode_char(base64[4 * g + 1]) { Ok(v) => v, Err(_) => 0 };
        let s2 = match base64_decode_char(base64[4 * g + 2]) { Ok(v) => v, Err(_) => 0 };
        let s3: u8 = if g < 10 {
            match base64_decode_char(base64[4 * g + 3]) { Ok(v) => v, Err(_) => 0 }
        } else {
            0
        };
        let ghost before = bytes@;
        bytes[3 * g] = (s0 << 2) | (s1 >> 4);
        bytes[3 * g + 1] = ((s1 & 15) << 4) | (s2 >> 2);
        if g < 10 {
            bytes[3 * g + 2] = ((s2 & 3) << 6) | s3;
        }
        proof {
            assert(s0 == sval(base64@, 4 * g as int));
            assert(s1 == sval(base64@, 4 * g + 1));
            assert(s2 == sval(base64@, 4 * g + 2));
            assert(s3 == sval(base64@, 4 * g + 3));
            assert forall|i: int| 0 <= i < 3 * (g + 1) && i < 32 implies #[trigger] bytes@[i] == decoded_byte(base64@, i) by {
                if i >= 3 * g {
                    assert(i / 3 == g);
                } else {
                    assert(bytes@[i] == before[i]);
                }
            }
        }
        if g == 10 && ((s2 & 3) << 6) | s3 != 0 {
            proof {
                assert(s3 == 0);
                assert(((s2 & 3) << 6) | 0u8 != 0 ==> s2 & 3 != 0) by (bit_vector);
            }
            return Err(Error::Base64ExtraBits);
        }
        proof {
            if g == 10 {
                assert(((s2 & 3) << 6) | 0u8 == 0 ==> s2 & 3 == 0) by (bit_vector);
                assert(4 * g + 2 == 42);
            }
        }
        g = g + 1;
    }
    assert(bytes@ =~= base64_bytes(base64@));
    Ok(bytes)
}

/// The lower-hex character of a nibble.
pub open spec fn hex_char(v: u8) -> u8 {
    if v < 10 {
        (48 + v) as u8
    } else {
        (97 + v - 10) as u8
    }
}

/// The nibble of a lower-hex character, if it is one.
pub open spec fn hex_val(c: u8) -> Option<u8> {
    if 48 <= c <= 57 {
        Some((c - 48) as u8)
    } else if 97 <= c <= 102 {
        Some((c - 97 + 10) as u8)
    } else {
        None
    }
}

/// The 64 lower-hex characters of 32 bytes, high nibble first.
pub open spec fn hex_of(b: Seq<u8>) -> Seq<u8> {
    Seq::new(64, |k: int| hex_char(if k % 2 == 0 { b[k / 2] >> 4 } else { b[k / 2] & 15 }))
}

/// Whether every character is lower-hex.
pub open spec fn all_hex(s: Seq<u8>) -> bool {
    forall|k: int| 0 <= k < s.len() ==> #[trigger] hex_val(s[k]) is Some
}

/// The nibble of character `k`, or zero.
pub open spec fn hval(s: Seq<u8>, k: int) -> u8 {
    match hex_val(s[k]) {
        Some(v) => v,
        None => 0,
    }
}

/// The 32 bytes that 64 lower-hex characters decode to.
pub open spec fn hex_bytes(s: Seq<u8>) -> Seq<u8> {
    Seq::new(32, |i: int| ((hval(s, 2 * i) << 4) | hval(s, 2 * i + 1)) as u8)
}

/// Encode 32 bytes as 64 lower-hex characters.
pub fn hex_encode(bytes: [u8; 32]) -> (r: [u8; 64])
    ensures
        r@ == hex_of(bytes@),
{
    let mut output: [u8; 64] = [0u8; 64];
    let mut i: usize = 0;
    while i < 32
        invariant
            i <= 32,
            output@.len() == 64,
            forall|k: int| 0 <= k < 2 * i ==> #[trigger] output@[k] == hex_of(bytes@)[k],
        decreases 32 - i,
    {
        let b = bytes[i];
        let hi = b >> 4;
        let lo = b & 15;
        assert(b >> 4 < 16 && b & 15 < 16) by (bit_vector);
        let ghost before = output@;
        output[2 * i] = if hi < 10 { 48 + hi } else { 97 + hi - 10 };
        output[2 * i + 1] = if lo < 10 { 48 + lo } else { 97 + lo - 10 };
        proof {
            assert forall|k: int| 0 <= k < 2 * (i + 1) implies #[trigger] output@[k] == hex_of(bytes@)[k] by {
                if k >= 2 * i {
                    assert(k / 2 == i);
                } else {
                    assert(output@[k] == before[k]);
                }
            }
        }
        i = i + 1;
    }
    assert(output@ =~= hex_of(bytes@));
    output
}

/// The nibble of a lower-hex character.
fn hex_decode_char(c: u8) -> (r: Result<u8, Error>)
    ensures
        match hex_val(c) {
            Some(v) => r == Ok::<u8, Error>(v),
            None => r == Err::<u8, Error>(Error::HexadecimalIllegalCharacter),
        },
{
    if c >= 48 && c <= 57 {
        Ok(c - 48)
    } else if c >= 97 && c <= 102 {
        Ok(c - 97 + 10)
    } else {
        Err(Error::HexadecimalIllegalCharacter)
    }
}

/// Decode 64 lower-hex characters into 32 bytes: wrong length, then an illegal character, are
/// errors.
pub fn hex_decode(hex: &[u8]) -> (r: Result<[u8; 32], Error>)
    ensures
        hex@.len() != 64 ==> r == Err::<[u8; 32], Error>(Error::HexadecimalWrongLength),
        hex@.len() == 64 && !all_hex(hex@) ==> r == Err::<[u8; 32], Error>(
            Error::HexadecimalIllegalCharacter,
        ),
        hex@.len() == 64 && all_hex(hex@) ==> (r matches Ok(b) && b@ == hex_bytes(hex@)),
{
    if hex.len() != 64 {
        return Err(Error::HexadecimalWrongLength);
    }
    let mut bytes: [u8; 32] = [0u8; 32];
    let mut i: usize = 0;
    while i < 32
        invariant
            hex@.len() == 64,
            i <= 32,
            bytes@.len() == 32,
            forall|k: int| 0 <= k < 2 * i ==> #[trigger] hex_val(hex@[k]) is Some,
            forall|q: int| 0 <= q < i ==> #[trigger] bytes@[q] == hex_bytes(hex@)[q],
        decreases 32 - i,
    {
        let hi = match hex_decode_char(hex[2 * i]) {
            Ok(v) => v,
            Err(e) => {
                return Err(e);
            },
        };
        let lo = match hex_decode_char(hex[2 * i + 1]) {
            Ok(v) => v,
            Err(e) => {
                return Err(e);
            },
        };
        let ghost before = bytes@;
        bytes[i] = (hi << 4) | lo;
        proof {
            assert(hi == hval(hex@, 2 * i as int));
            assert(lo == hval(hex@, 2 * i + 1));
            assert forall|q: int| 0 <= q < i + 1 implies #[trigger] bytes@[q] == hex_bytes(hex@)[q] by {
                if q < i {
                    assert(bytes@[q] == before[q]);
                }
            }
            assert forall|k: int| 0 <= k < 2 * (i + 1) implies #[trigger] hex_val(hex@[k]) is Some by {
                if k == 2 * i {
                } else if k == 2 * i + 1 {
                }
            }
        }
        i = i + 1;
    }
    assert(bytes@ =~= hex_bytes(hex@));
    Ok(bytes)
}

/// Within a group, decoding the sextets of three bytes gives the bytes back.
proof fn lemma_group_roundtrip(b0: u8, b1: u8, b2: u8)
    ensures
        group_byte(
            group_sextet(b0, b1, b2, 0),
            group_sextet(b0, b1, b2, 1),
            group_sextet(b0, b1, b2, 2),
            group_sextet(b0, b1, b2, 3),
            0,
        ) == b0,
        group_byte(
            group_sextet(b0, b1, b2, 0),
            group_sextet(b0, b1, b2, 1),
            group_sextet(b0, b1, b2, 2),
            group_sextet(b0, b1, b2, 3),
            1,
        ) == b1,
        group_byte(
            group_sextet(b0, b1, b2, 0),
            group_sextet(b0, b1, b2, 1),
            group_sextet(b0, b1, b2, 2),
            group_sextet(b0, b1, b2, 3),
            2,
        ) == b2,
        group_byte(group_sextet(b0, b1, 0, 0), group_sextet(b0, b1, 0, 1), group_sextet(b0, b1, 0, 2), 0, 1) == b1,
        group_sextet(b0, b1, 0, 2) & 3 == 0,
{
    assert(((b0 >> 2) << 2) | ((((b0 & 3) << 4) | (b1 >> 4)) >> 4) == b0) by (bit_vector);
    assert((((((b0 & 3) << 4) | (b1 >> 4)) & 15) << 4) | ((((b1 & 15) << 2) | (b2 >> 6)) >> 2) == b1) by (bit_vector);
    assert((((((b1 & 15) << 2) | (b2 >> 6)) & 3) << 6) | (b2 & 63) == b2) by (bit_vector);
    assert((((((b0 & 3) << 4) | (b1 >> 4)) & 15) << 4) | ((((b1 & 15) << 2) | (0u8 >> 6)) >> 2) == b1) by (bit_vector);
    assert((((b1 & 15) << 2) | (0u8 >> 6)) & 3 == 0) by (bit_vector);
}

/// Within a group, encoding the bytes of four six-bit values gives the values back; in the last
/// group, of three values, when the extra bits are zero.
proof fn lemma_group_canonical(s0: u8, s1: u8, s2: u8, s3: u8)
    requires
        s0 < 64,
        s1 < 64,
        s2 < 64,
        s3 < 64,
    ensures
        group_sextet(group_byte(s0, s1, s2, s3, 0), group_byte(s0, s1, s2, s3, 1), group_byte(s0, s1, s2, s3, 2), 0) == s0,
        group_sextet(group_byte(s0, s1, s2, s3, 0), group_byte(s0, s1, s2, s3, 1), group_byte(s0, s1, s2, s3, 2), 1) == s1,
        group_sextet(group_byte(s0, s1, s2, s3, 0), group_byte(s0, s1, s2, s3, 1), group_byte(s0, s1, s2, s3, 2), 2) == s2,
        group_sextet(group_byte(s0, s1, s2, s3, 0), group_byte(s0, s1, s2, s3, 1), group_byte(s0, s1, s2, s3, 2), 3) == s3,
        s2 & 3 == 0 ==> group_sextet(group_byte(s0, s1, s2, s3, 0), group_byte(s0, s1, s2, s3, 1), 0, 2) == s2,
{
    assert(s0 < 64 && s1 < 64 ==> ((s0 << 2) | (s1 >> 4)) >> 2 == s0) by (bit_vector);
    assert(s1 < 64 && s2 < 64 ==> ((((s0 << 2) | (s1 >> 4)) & 3) << 4) | ((((s1 & 15) << 4) | (s2 >> 2)) >> 4) == s1) by (bit_vector);
    assert(s2 < 64 && s3 < 64 ==> (((((s1 & 15) << 4) | (s2 >> 2)) & 15) << 2) | ((((s2 & 3) << 6) | s3) >> 6) == s2) by (bit_vector);
    assert(s3 < 64 ==> (((s2 & 3) << 6) | s3) & 63 == s3) by (bit_vector);
    assert(s2 < 64 && s2 & 3 == 0 ==> (((((s1 & 15) << 4) | (s2 >> 2)) & 15) << 2) | (0u8 >> 6) == s2) by (bit_vector);
}

/// Characters and six-bit values correspond.
proof fn lemma_b64_char_val(v: u8)
    requires
        v < 64,
    ensures
        b64_val(b64_char(v)) == Some(v),
{
}

/// Valid characters are the characters of their values.
proof fn lemma_b64_val_char(c: u8)
    requires
        b64_val(c) is Some,
    ensures
        b64_val(c).unwrap() < 64,
        b64_char(b64_val(c).unwrap()) == c,
{
}

/// Decoding the base64 of 32 bytes gives them back, and the encoding is valid with its extra
/// bits zero.
pub proof fn lemma_base64_roundtrip(b: Seq<u8>)
    requires
        b.len() == 32,
    ensures
        all_b64(base64_of(b)),
        b64_extra_bits_zero(base64_of(b)),
        base64_bytes(base64_of(b)) == b,
{
    let e = base64_of(b);
    assert forall|k: int| 0 <= k < 43 implies #[trigger] sval(e, k) == sextet(b, k) && b64_val(e[k]) is Some by {
        let g = k / 4;
        lemma_group_sextets_small(byte_or_zero(b, 3 * g), byte_or_zero(b, 3 * g + 1), byte_or_zero(b, 3 * g + 2));
        lemma_b64_char_val(sextet(b, k));
    }
    assert forall|i: int| 0 <= i < 32 implies #[trigger] decoded_byte(e, i) == b[i] by {
        let g = i / 3;
        let b0 = byte_or_zero(b, 3 * g);
        let b1 = byte_or_zero(b, 3 * g + 1);
        let b2 = byte_or_zero(b, 3 * g + 2);
        lemma_group_roundtrip(b0, b1, b2);
        assert(sval(e, 4 * g) == sextet(b, 4 * g));
        assert(sval(e, 4 * g + 1) == sextet(b, 4 * g + 1));
        assert(sval(e, 4 * g + 2) == sextet(b, 4 * g + 2));
        assert((4 * g) / 4 == g && (4 * g + 1) / 4 == g && (4 * g + 2) / 4 == g && (4 * g + 3) / 4 == g);
        if g < 10 {
            assert(sval(e, 4 * g + 3) == sextet(b, 4 * g + 3));
        } else {
            assert(b2 == 0);
            assert(sval(e, 43) == 0);
        }
    }
    assert(base64_bytes(e) =~= b);
    lemma_group_roundtrip(b[30], b[31], 0);
    assert(sval(e, 42) == sextet(b, 42));
    assert(42int / 4 == 10);
}

/// Base64 that decodes is the encoding of what it decodes to: each key has one encoding.
pub proof fn lemma_base64_canonical(s: Seq<u8>)
    requires
        s.len() == 43,
        all_b64(s),
        b64_extra_bits_zero(s),
    ensures
        base64_of(base64_bytes(s)) == s,
{
    let d = base64_bytes(s);
    assert forall|k: int| 0 <= k < 43 implies #[trigger] base64_of(d)[k] == s[k] by {
        let g = k / 4;
        let s0 = sval(s, 4 * g);
        let s1 = sval(s, 4 * g + 1);
        let s2 = sval(s, 4 * g + 2);
        let s3 = sval(s, 4 * g + 3);
        lemma_b64_val_char(s[4 * g]);
        lemma_b64_val_char(s[4 * g + 1]);
        lemma_b64_val_char(s[4 * g + 2]);
        if g < 10 {
            lemma_b64_val_char(s[4 * g + 3]);
        }
        lemma_group_canonical(s0, s1, s2, s3);
        lemma_b64_val_char(s[k]);
        assert((3 * g) / 3 == g && (3 * g + 1) / 3 == g && (3 * g + 2) / 3 == g);
        assert(byte_or_zero(d, 3 * g) == group_byte(s0, s1, s2, s3, 0));
        assert(byte_or_zero(d, 3 * g + 1) == group_byte(s0, s1, s2, s3, 1));
        if g < 10 {
            assert(byte_or_zero(d, 3 * g + 2) == group_byte(s0, s1, s2, s3, 2));
        } else {
            assert(byte_or_zero(d, 32) == 0);
            assert(k <= 42);
        }
    }
    assert(base64_of(d) =~= s);
}

/// Decoding the lower-hex of 32 bytes gives them back, and the encoding is valid lower-hex.
pub proof fn lemma_hex_roundtrip(b: Seq<u8>)
    requires
        b.len() == 32,
    ensures
        all_hex(hex_of(b)),
        hex_bytes(hex_of(b)) == b,
{
    let e = hex_of(b);
    assert forall|k: int| 0 <= k < 64 implies #[trigger] hex_val(e[k]) is Some by {
        let x = b[k / 2];
        assert(x >> 4 < 16 && x & 15 < 16) by (bit_vector);
    }
    assert forall|i: int| 0 <= i < 32 implies #[trigger] hex_bytes(e)[i] == b[i] by {
        let x = b[i];
        assert(x >> 4 < 16 && x & 15 < 16) by (bit_vector);
        assert((2 * i) / 2 == i && (2 * i + 1) / 2 == i);
        assert(hval(e, 2 * i) == x >> 4);
        assert(hval(e, 2 * i + 1) == x & 15);
        assert(((x >> 4) << 4) | (x & 15) == x) by (bit_vector);
    }
    assert(hex_bytes(e) =~= b);
}

/// Lower-hex that decodes is the encoding of what it decodes to.
pub proof fn lemma_hex_canonical(s: Seq<u8>)
    requires
        s.len() == 64,
        all_hex(s),
    ensures
        hex_of(hex_bytes(s)) == s,
{
    let d = hex_bytes(s);
    assert forall|k: int| 0 <= k < 64 implies #[trigger] hex_of(d)[k] == s[k] by {
        let i = k / 2;
        let hi = hval(s, 2 * i);
        let lo = hval(s, 2 * i + 1);
        assert(hex_val(s[2 * i]) is Some);
        assert(hex_val(s[2 * i + 1]) is Some);
        assert(hi < 16 && lo < 16);
        assert(hi < 16 && lo < 16 ==> (((hi << 4) | lo) >> 4 == hi && ((hi << 4) | lo) & 15 == lo)) by (bit_vector);
        assert(hex_val(s[k]) is Some);
    }
    assert(hex_of(d) =~= s);
}

} // verus!