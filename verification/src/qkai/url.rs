//! The syntax of qkai urls: `[qkai://]<public key>@<ip address>:<port>`.
use super::base64::{all_b64, b64_extra_bits_zero, base64_bytes};
use super::ed25519::PublicKey;
use super::error::Error;
use vstd::prelude::*;

verus! {

/// Maximum ascii length of a valid qkai url: 7 for the optional scheme, 43 for the key, 1 for
/// `@`, 2 for the brackets and 45 for the longest ipv6 address, 1 for `:` and 5 for the port.
pub const QKAI_URL_MAX_LEN: usize = 104;

/// The optional scheme, `qkai://`.
pub const QKAI_SCHEME: [u8; 7] = [113, 107, 97, 105, 58, 47, 47];

/// The url with its scheme, if any, stripped.
pub open spec fn strip_scheme(b: Seq<u8>) -> Seq<u8> {
    if b.len() >= 7 && b.take(7) == QKAI_SCHEME@ {
        b.skip(7)
    } else {
        b
    }
}

/// Whether `i` is the position of the last colon among the last six bytes of `sa`.
pub open spec fn is_colon_pos(sa: Seq<u8>, i: int) -> bool {
    &&& sa.len() - 6 <= i < sa.len()
    &&& 0 <= i
    &&& sa[i] == 58
    &&& forall|j: int| i < j < sa.len() ==> #[trigger] sa[j] != 58
}

/// Whether there is a colon among the last six bytes of `sa`.
pub open spec fn has_colon(sa: Seq<u8>) -> bool {
    exists|i: int| 0 <= i && sa.len() - 6 <= i < sa.len() && #[trigger] sa[i] == 58
}

/// The parts of a qkai url, before the ip address and port are parsed.
pub struct UrlParts {
    /// The public key.
    pub public_key: PublicKey,
    /// Whether the ip address is in brackets, so ipv6.
    pub is_ipv6: bool,
    /// The bytes of the ip address, without the brackets.
    pub ip: Vec<u8>,
    /// The bytes of the port.
    pub port: Vec<u8>,
}

/// Split a qkai url into its parts, checking, in order: its length, the scheme-less length, the
/// `@`, the key, the colon among the last six bytes, and the ip address's length. The ip address
/// and the port remain to be parsed, the port's emptiness to be checked after the address.
pub fn split_url(bytes: &[u8]) -> (r: Result<UrlParts, Error>)
    ensures
        bytes@.len() > QKAI_URL_MAX_LEN ==> r == Err::<UrlParts, Error>(Error::UrlTooLong),
        bytes@.len() <= QKAI_URL_MAX_LEN ==> {
            let b = strip_scheme(bytes@);
            let key = b.take(43);
            let sa = b.skip(44);
            if b.len() < 45 {
                r == Err::<UrlParts, Error>(Error::UrlTooShort)
            } else if b[43] != 64 {
                r == Err::<UrlParts, Error>(Error::UrlMissingAtSymbol)
            } else if !all_b64(key) {
                r == Err::<UrlParts, Error>(Error::Base64IllegalCharacter)
            } else if !b64_extra_bits_zero(key) {
                r == Err::<UrlParts, Error>(Error::Base64ExtraBits)
            } else if !has_colon(sa) {
                r == Err::<UrlParts, Error>(Error::UrlMissingColon)
            } else {
                exists|c: int|
                    #![trigger is_colon_pos(sa, c)]
                    is_colon_pos(sa, c) && if c < 3 {
                        r == Err::<UrlParts, Error>(Error::UrlIpAddrTooShort)
                    } else {
                        r matches Ok(p) && p.public_key.bytes() == base64_bytes(key) && p.is_ipv6
                            == (sa[0] == 91) && p.ip@ == (if sa[0] == 91 {
                            sa.subrange(1, c - 1)
                        } else {
                            sa.take(c)
                        }) && p.port@ == sa.skip(c + 1)
                    }
            }
        },
{
    if bytes.len() > QKAI_URL_MAX_LEN {
        return Err(Error::UrlTooLong);
    }
    let scheme: [u8; 7] = QKAI_SCHEME;
    let mut start: usize = 0;
    if bytes.len() >= 7 {
        let mut i: usize = 0;
        let mut same = true;
        while i < 7
            invariant
                bytes@.len() >= 7,
                i <= 7,
                scheme@ == QKAI_SCHEME@,
                same == (forall|k: int| 0 <= k < i ==> bytes@[k] == scheme@[k]),
            decreases 7 - i,
        {
            if bytes[i] != scheme[i] {
                same = false;
            }
            i = i + 1;
        }
        if same {
            assert(bytes@.take(7) =~= QKAI_SCHEME@);
            start = 7;
        } else {
            proof {
                if bytes@.take(7) == QKAI_SCHEME@ {
                    let k = choose|k: int| 0 <= k < 7 && bytes@[k] != scheme@[k];
                    assert(bytes@.take(7)[k] == bytes@[k]);
                }
            }
        }
    }
    let ghost b = strip_scheme(bytes@);
    assert(b =~= bytes@.skip(start as int));
    let len = bytes.len() - start;
    if len < 45 {
        return Err(Error::UrlTooShort);
    }
    if bytes[start + 43] != 64 {
        return Err(Error::UrlMissingAtSymbol);
    }
    // copy the key characters
    let mut key: Vec<u8> = Vec::new();
    let mut k: usize = 0;
    while k < 43
        invariant
            k <= 43,
            start + 45 <= bytes@.len(),
            bytes@.len() <= QKAI_URL_MAX_LEN,
            b == bytes@.skip(start as int),
            key@ == b.take(k as int),
        decreases 43 - k,
    {
        key.push(bytes[start + k]);
        assert(b.take(k + 1) =~= b.take(k as int).push(b[k as int]));
        k = k + 1;
    }
    let public_key = match PublicKey::from_base64(key.as_slice()) {
        Ok(p) => p,
        Err(e) => {
            return Err(e);
        },
    };
    let sa_start = start + 44;
    let sa_len = bytes.len() - sa_start;
    let ghost sa = b.skip(44);
    assert(sa =~= bytes@.skip(sa_start as int));
    // find the last colon among the last six bytes
    let mut pos: usize = sa_len;
    let mut found = false;
    let lower: usize = if sa_len >= 6 { sa_len - 6 } else { 0 };
    while pos > lower && !found
        invariant
            sa == bytes@.skip(sa_start as int),
            sa_len == sa.len(),
            sa_start + sa_len == bytes@.len(),
            bytes@.len() <= QKAI_URL_MAX_LEN,
            lower <= pos <= sa_len,
            lower == (if sa_len >= 6 { sa_len - 6 } else { 0 }),
            found ==> pos < sa_len && sa[pos as int] == 58,
            forall|j: int| (if found { pos + 1int } else { pos as int }) <= j < sa_len ==> #[trigger] sa[j] != 58,
        decreases pos + (if found { 0int } else { 1int }),
    {
        if bytes[sa_start + pos - 1] == 58 {
            pos = pos - 1;
            found = true;
        } else {
            pos = pos - 1;
        }
    }
    if !found {
        proof {
            if has_colon(sa) {
                let i = choose|i: int| 0 <= i && sa.len() - 6 <= i < sa.len() && #[trigger] sa[i] == 58;
            }
        }
        return Err(Error::UrlMissingColon);
    }
    let colon = pos;
    proof {
        assert(is_colon_pos(sa, colon as int));
        assert(has_colon(sa));
    }
    if colon < 3 {
        return Err(Error::UrlIpAddrTooShort);
    }
    let is_ipv6 = bytes[sa_start] == 91;
    let (ip_from, ip_to) = if is_ipv6 { (1usize, colon - 1) } else { (0usize, colon) };
    let mut ip: Vec<u8> = Vec::new();
    let mut q: usize = ip_from;
    while q < ip_to
        invariant
            ip_from <= q <= ip_to,
            ip_to <= colon,
            colon < sa_len,
            sa == bytes@.skip(sa_start as int),
            sa_len == sa.len(),
            sa_start + sa_len == bytes@.len(),
            bytes@.len() <= QKAI_URL_MAX_LEN,
            ip@ == sa.subrange(ip_from as int, q as int),
        decreases ip_to - q,
    {
        ip.push(bytes[sa_start + q]);
        assert(sa.subrange(ip_from as int, q + 1) =~= sa.subrange(ip_from as int, q as int).push(sa[q as int]));
        q = q + 1;
    }
    let mut port: Vec<u8> = Vec::new();
    let mut p: usize = colon + 1;
    while p < sa_len
        invariant
            colon + 1 <= p <= sa_len,
            sa == bytes@.skip(sa_start as int),
            sa_len == sa.len(),
            sa_start + sa_len == bytes@.len(),
            bytes@.len() <= QKAI_URL_MAX_LEN,
            port@ == sa.subrange(colon + 1, p as int),
        decreases sa_len - p,
    {
        port.push(bytes[sa_start + p]);
        assert(sa.subrange(colon + 1, p + 1) =~= sa.subrange(colon + 1, p as int).push(sa[p as int]));
        p = p + 1;
    }
    proof {
        assert(port@ =~= sa.skip(colon + 1));
        if !is_ipv6 {
            assert(ip@ =~= sa.take(colon as int));
        }
        assert forall|c: int| is_colon_pos(sa, c) implies c == colon by {
            if c < colon {
                assert(sa[colon as int] != 58);
            } else if c > colon {
                assert(sa[c] != 58);
            }
        }
    }
    Ok(UrlParts { public_key, is_ipv6, ip, port })
}

/// Check the port's bytes, once the ip address has been parsed: an empty port is an error.
pub fn check_port(port: &[u8]) -> (r: Result<(), Error>)
    ensures
        r == (if port@.len() == 0 {
            Err::<(), Error>(Error::UrlEmptyPort)
        } else {
            Ok::<(), Error>(())
        }),
{
    if port.len() == 0 {
        Err(Error::UrlEmptyPort)
    } else {
        Ok(())
    }
}

} // verus!
