//! The variable length integer format of the wire protocol.
//!
//! A varint is written little-endian, seven bits per byte, with the high bit of a byte set when
//! more bytes follow. After eight such bytes, a ninth byte carries the top eight bits whole.
use vstd::prelude::*;

verus! {

/// `128` to the power `x`.
pub open spec fn pow128(x: nat) -> nat
    decreases x,
{
    if x == 0 {
        1
    } else {
        128 * pow128((x - 1) as nat)
    }
}

/// The bytes encoding `i`, when at most `groups` seven-bit groups may be followed by a final
/// eight-bit byte.
pub open spec fn varint_enc(i: nat, groups: nat) -> Seq<u8>
    decreases groups,
{
    if groups == 0 || i < 128 {
        seq![i as u8]
    } else {
        seq![(i % 128 + 128) as u8] + varint_enc(i / 128, (groups - 1) as nat)
    }
}

/// The bytes encoding `i` on the wire.
pub open spec fn varint_bytes(i: u64) -> Seq<u8> {
    varint_enc(i as nat, 8)
}

/// The bytes of a length-prefixed byte string: the length as a varint, then the bytes.
pub open spec fn varbytes(b: Seq<u8>) -> Seq<u8> {
    varint_bytes(b.len() as u64) + b
}

/// Decode a varint at the front of `bytes`, with at most `groups` seven-bit groups before a final
/// eight-bit byte, giving the value and the number of bytes it took, or `None` if the bytes end
/// first.
pub open spec fn varint_dec(bytes: Seq<u8>, groups: nat) -> Option<(nat, nat)>
    decreases groups,
{
    if bytes.len() == 0 {
        None
    } else if groups == 0 || bytes[0] < 128 {
        Some((bytes[0] as nat, 1))
    } else {
        match varint_dec(bytes.drop_first(), (groups - 1) as nat) {
            Some((v, n)) => Some(((bytes[0] % 128) as nat + 128 * v, n + 1)),
            None => None,
        }
    }
}

/// Decode a varint at the front of `bytes` as it appears on the wire.
pub open spec fn varint_parse(bytes: Seq<u8>) -> Option<(nat, nat)> {
    varint_dec(bytes, 8)
}

/// The value of a run of bytes each carrying seven bits, least significant first.
pub open spec fn group_value(s: Seq<u8>) -> nat
    decreases s.len(),
{
    if s.len() == 0 {
        0
    } else {
        (s[0] % 128) as nat + 128 * group_value(s.drop_first())
    }
}

/// Whether every byte has its continuation bit set.
pub open spec fn all_continued(s: Seq<u8>) -> bool {
    forall|k: int| 0 <= k < s.len() ==> s[k] >= 128
}

/// `128^8 == 2^56`.
pub proof fn lemma_pow128_8()
    ensures
        pow128(8) == 0x100_0000_0000_0000,
        pow128(8) * 256 == 0x1_0000_0000_0000_0000,
{
    assert(pow128(0) == 1);
    assert(pow128(1) == 128);
    assert(pow128(2) == 0x4000);
    assert(pow128(3) == 0x20_0000);
    assert(pow128(4) == 0x1000_0000);
    assert(pow128(5) == 0x8_0000_0000);
    assert(pow128(6) == 0x400_0000_0000);
    assert(pow128(7) == 0x2_0000_0000_0000);
    assert(pow128(8) == 0x100_0000_0000_0000);
}

pub proof fn lemma_pow128_facts(x: nat)
    ensures
        pow128(x) >= 1,
        pow128(x + 1) == 128 * pow128(x),
        x <= 8 ==> pow128(x) <= 0x100_0000_0000_0000,
    decreases x,
{
    if x > 0 {
        lemma_pow128_facts((x - 1) as nat);
    }
    if x <= 8 {
        lemma_pow128_8();
        lemma_pow128_monotone(x, 8);
    }
}

pub proof fn lemma_pow128_monotone(x: nat, y: nat)
    requires
        x <= y,
    ensures
        pow128(x) <= pow128(y),
    decreases y,
{
    if x < y {
        lemma_pow128_monotone(x, (y - 1) as nat);
        lemma_pow128_pos((y - 1) as nat);
    }
}

pub proof fn lemma_pow128_pos(x: nat)
    ensures
        pow128(x) >= 1,
    decreases x,
{
    if x > 0 {
        lemma_pow128_pos((x - 1) as nat);
    }
}

/// Appending a group to a run adds its bits at the next position.
pub proof fn lemma_group_value_push(s: Seq<u8>, b: u8)
    ensures
        group_value(s.push(b)) == group_value(s) + pow128(s.len()) * (b % 128) as nat,
        group_value(s) < pow128(s.len()),
    decreases s.len(),
{
    lemma_pow128_pos(s.len());
    assert(pow128(0) == 1);
    if s.len() == 0 {
        assert(s.push(b).drop_first() =~= Seq::<u8>::empty());
        assert(group_value(Seq::<u8>::empty()) == 0);
        assert(s.push(b)[0] == b);
        assert(group_value(s.push(b)) == (b % 128) as nat);
    } else {
        assert(s.push(b).drop_first() =~= s.drop_first().push(b));
        lemma_group_value_push(s.drop_first(), b);
        let t = s.drop_first();
        let gt = group_value(t);
        let p = pow128(t.len());
        assert(pow128(s.len()) == 128 * p);
        let c = (s[0] % 128) as nat;
        let d = (b % 128) as nat;
        assert(group_value(s) == c + 128 * gt);
        assert(group_value(s.push(b)) == c + 128 * (gt + p * d));
        assert(128 * (gt + p * d) == 128 * gt + (128 * p) * d) by (nonlinear_arith);
        assert(gt < p);
        assert(c + 128 * gt < 128 * p) by (nonlinear_arith)
            requires
                c < 128,
                gt < p,
        ;
        assert(group_value(s.push(b)) == group_value(s) + pow128(s.len()) * (b % 128) as nat);
    }
}

/// A varint is a run of continued bytes followed by a byte that ends it: one without the
/// continuation bit, or the eighth-plus-one byte.
pub proof fn lemma_varint_dec_run(c: Seq<u8>, b: u8, rest: Seq<u8>, groups: nat)
    requires
        all_continued(c),
        c.len() <= groups,
        b < 128 || c.len() == groups,
    ensures
        varint_dec(c.push(b) + rest, groups) == Some(
            (group_value(c) + pow128(c.len()) * (b as nat), c.len() + 1),
        ),
    decreases c.len(),
{
    let s = c.push(b) + rest;
    assert(pow128(0) == 1);
    if c.len() == 0 {
        assert(s[0] == b);
        assert(group_value(c) == 0);
        assert(varint_dec(s, groups) == Some((b as nat, 1nat)));
        assert(pow128(c.len()) == 1);
        assert(pow128(c.len()) * (b as nat) == b as nat) by (nonlinear_arith)
            requires
                pow128(c.len()) == 1,
        ;
    } else {
        assert(s[0] == c[0]);
        assert(s.drop_first() =~= c.drop_first().push(b) + rest);
        lemma_varint_dec_run(c.drop_first(), b, rest, (groups - 1) as nat);
        let t = c.drop_first();
        let p = pow128(t.len());
        assert(pow128(c.len()) == 128 * p);
        assert(128 * (group_value(t) + p * (b as nat)) == 128 * group_value(t) + (128 * p) * (
        b as nat)) by (nonlinear_arith);
        let inner = varint_dec(t.push(b) + rest, (groups - 1) as nat);
        assert(inner == Some((group_value(t) + p * (b as nat), t.len() + 1)));
        assert(c[0] >= 128);
        assert(groups > 0);
        assert(varint_dec(s, groups) == Some(
            ((c[0] % 128) as nat + 128 * (group_value(t) + p * (b as nat)), t.len() + 2),
        ));
        assert(group_value(c) == (c[0] % 128) as nat + 128 * group_value(t));
        assert(t.len() + 2 == c.len() + 1);
        assert((c[0] % 128) as nat + 128 * (group_value(t) + p * (b as nat)) == group_value(c)
            + pow128(c.len()) * (b as nat));
    }
}

/// A varint that starts with a run of continued bytes extends past that run.
pub proof fn lemma_varint_dec_past_run(c: Seq<u8>, t: Seq<u8>, groups: nat)
    requires
        all_continued(c),
        c.len() <= groups,
    ensures
        varint_dec(c + t, groups) matches Some((v, n)) ==> n > c.len(),
    decreases c.len(),
{
    if c.len() > 0 {
        assert((c + t)[0] == c[0]);
        assert((c + t).drop_first() =~= c.drop_first() + t);
        lemma_varint_dec_past_run(c.drop_first(), t, (groups - 1) as nat);
    }
}

/// If the bytes end within a run of continued bytes, there is no varint.
pub proof fn lemma_varint_dec_short(c: Seq<u8>, groups: nat)
    requires
        all_continued(c),
        c.len() <= groups,
    ensures
        varint_dec(c, groups) is None,
    decreases c.len(),
{
    if c.len() > 0 {
        lemma_varint_dec_short(c.drop_first(), (groups - 1) as nat);
    }
}

/// A decoded varint takes between one byte and `groups + 1` bytes, and has a value below
/// `128^groups * 256`.
pub proof fn lemma_varint_dec_bounds(bytes: Seq<u8>, groups: nat)
    ensures
        varint_dec(bytes, groups) matches Some((v, n)) ==> 1 <= n <= bytes.len() && n <= groups + 1
            && v < pow128(groups) * 256 && bytes.subrange(0, n as int) + bytes.subrange(
            n as int,
            bytes.len() as int,
        ) == bytes,
    decreases groups,
{
    lemma_pow128_pos(groups);
    if bytes.len() > 0 && !(groups == 0 || bytes[0] < 128) {
        lemma_varint_dec_bounds(bytes.drop_first(), (groups - 1) as nat);
        if let Some((v, n)) = varint_dec(bytes.drop_first(), (groups - 1) as nat) {
            let p = pow128((groups - 1) as nat);
            assert(pow128(groups) == 128 * p);
            let c = (bytes[0] % 128) as nat;
            assert(c + 128 * v < 128 * p * 256) by (nonlinear_arith)
                requires
                    c < 128,
                    v < p * 256,
            ;
        }
    }
    if let Some((v, n)) = varint_dec(bytes, groups) {
        assert(bytes.subrange(0, n as int) + bytes.subrange(n as int, bytes.len() as int)
            =~= bytes);
    }
}

/// Decoding the encoding of a value gives the value back, whatever follows it.
pub proof fn lemma_varint_enc_dec(i: nat, groups: nat, rest: Seq<u8>)
    requires
        i < pow128(groups) * 256,
    ensures
        varint_dec(varint_enc(i, groups) + rest, groups) == Some(
            (i, varint_enc(i, groups).len()),
        ),
        1 <= varint_enc(i, groups).len() <= groups + 1,
    decreases groups,
{
    let e = varint_enc(i, groups);
    let s = e + rest;
    if groups == 0 || i < 128 {
        assert(pow128(0) == 1);
        assert(s[0] == i as u8);
    } else {
        let p = pow128((groups - 1) as nat);
        assert(pow128(groups) == 128 * p);
        assert(i / 128 < p * 256) by (nonlinear_arith)
            requires
                i < 128 * p * 256,
        ;
        lemma_varint_enc_dec(i / 128, (groups - 1) as nat, rest);
        let t = varint_enc(i / 128, (groups - 1) as nat);
        assert(s[0] == (i % 128 + 128) as u8);
        assert(s.drop_first() =~= t + rest);
    }
}

/// The wire encoding of a `u64` decodes back to it, whatever follows it, and takes one to nine
/// bytes.
pub proof fn lemma_varint_roundtrip(i: u64, rest: Seq<u8>)
    ensures
        varint_parse(varint_bytes(i) + rest) == Some((i as nat, varint_bytes(i).len())),
        1 <= varint_bytes(i).len() <= 9,
{
    lemma_pow128_8();
    lemma_varint_enc_dec(i as nat, 8, rest);
}

/// A decoded wire varint fits in a `u64`, and takes one to nine bytes.
pub proof fn lemma_varint_parse_bounds(bytes: Seq<u8>)
    ensures
        varint_parse(bytes) matches Some((v, n)) ==> v <= u64::MAX && 1 <= n <= bytes.len() && n
            <= 9,
{
    lemma_pow128_8();
    lemma_varint_dec_bounds(bytes, 8);
}

/// Append the wire encoding of `i` to `out`.
pub fn write_varint(out: &mut Vec<u8>, i: u64)
    ensures
        final(out)@ == old(out)@ + varint_bytes(i),
{
    let ghost orig = old(out)@;
    let mut n: u64 = i;
    let mut k: u64 = 0;
    proof {
        lemma_pow128_8();
    }
    while k < 8
        invariant
            k <= 8,
            orig == old(out)@,
            n < pow128((8 - k) as nat) * 256,
            orig + varint_bytes(i) == out@ + varint_enc(n as nat, (8 - k) as nat),
        decreases 8 - k,
    {
        let ghost g = (8 - k) as nat;
        let ghost before = out@;
        let mut b: u8 = (n % 128) as u8;
        let m = n / 128;
        if m != 0 {
            b = b + 128;
        }
        out.push(b);
        if m == 0 {
            assert(n < 128);
            assert(varint_enc(n as nat, g) == seq![n as u8]);
            assert(out@ =~= before + varint_enc(n as nat, g));
            assert(orig + varint_bytes(i) == out@);
            return ;
        }
        proof {
            let p = pow128((g - 1) as nat);
            assert(pow128(g) == 128 * p);
            assert(m < p * 256) by (nonlinear_arith)
                requires
                    n < 128 * p * 256,
                    m == n / 128,
            ;
            assert(varint_enc(n as nat, g) == seq![(n % 128 + 128) as u8] + varint_enc(
                m as nat,
                (g - 1) as nat,
            ));
            assert(before + varint_enc(n as nat, g) =~= out@ + varint_enc(m as nat, (g - 1) as nat));
        }
        n = m;
        k = k + 1;
    }
    assert(pow128(0) == 1);
    assert(varint_enc(n as nat, 0) == seq![n as u8]);
    out.push(n as u8);
    assert(orig + varint_bytes(i) =~= out@);
}

} // verus!
