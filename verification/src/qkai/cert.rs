//! Checking the key of a server's certificate against the server name that a client dialed: the
//! certificate must hold an ed25519 subject public key, and the name must be that key in base64.
use super::base64::{all_b64, b64_extra_bits_zero, base64_bytes};
use super::ed25519::PublicKey;
use vstd::prelude::*;

verus! {

/// The subject public key info that `x509_parser::parse_x509_certificate` reads from the DER
/// bytes of a certificate: the encoded object identifier of the key's algorithm, the key's bits,
/// and the number of unused bits at their end; `None` where the bytes do not parse.
pub uninterp spec fn x509_subject_key(der: Seq<u8>) -> Option<(Seq<u8>, Seq<u8>, u8)>;

/// Wraps `x509_parser::parse_x509_certificate` and reads from the certificate's subject public key
/// info the algorithm's encoded object identifier (`Oid::as_bytes`), the key's data and its unused
/// bits. The contract names the result: it depends on the DER bytes alone.
#[verifier::external_body]
fn parse_subject_key(der: &[u8]) -> (r: Option<(Vec<u8>, Vec<u8>, u8)>)
    ensures
        match r {
            Some((oid, key, unused)) => x509_subject_key(der@) == Some((oid@, key@, unused)),
            None => x509_subject_key(der@) is None,
        },
{
    match x509_parser::parse_x509_certificate(der) {
        Ok((_, cert)) => {
            let pki = &cert.tbs_certificate.subject_pki;
            Some((
                pki.algorithm.algorithm.as_bytes().to_vec(),
                pki.subject_public_key.data.to_vec(),
                pki.subject_public_key.unused_bits,
            ))
        },
        Err(_) => None,
    }
}

/// The encoded object identifier of the ed25519 signature algorithm, 1.3.101.112.
pub const OID_ED25519: [u8; 3] = [43, 101, 112];

/// The ed25519 key of a subject public key info: its algorithm is ed25519, and its key is 32
/// bytes with no unused bits.
pub open spec fn ed25519_subject_key(info: Option<(Seq<u8>, Seq<u8>, u8)>) -> Option<Seq<u8>> {
    match info {
        Some((oid, key, unused)) => if oid == OID_ED25519@ && key.len() == 32 && unused == 0 {
            Some(key)
        } else {
            None
        },
        None => None,
    }
}

/// The key that a server name stands for: the name must be a canonical base64 public key.
pub open spec fn server_name_key(name: Option<Seq<u8>>) -> Option<Seq<u8>> {
    match name {
        Some(n) => if n.len() == 43 && all_b64(n) && b64_extra_bits_zero(n) {
            Some(base64_bytes(n))
        } else {
            None
        },
        None => None,
    }
}

/// The view of an optional byte slice.
pub open spec fn opt_view(name: Option<&[u8]>) -> Option<Seq<u8>> {
    match name {
        Some(n) => Some(n@),
        None => None,
    }
}

/// Whether a client accepts a server certificate: it comes without intermediates, holds an
/// ed25519 key, and the server name is that key.
pub open spec fn accepts_server_cert(cert_key: Option<Seq<u8>>, intermediates: nat, name: Option<Seq<u8>>) -> bool {
    &&& intermediates == 0
    &&& cert_key is Some
    &&& server_name_key(name) is Some
    &&& cert_key == server_name_key(name)
}

/// The ed25519 public key in a subject public key info, given its algorithm's encoded object
/// identifier, its key bits and the number of unused bits; `None` if it is no such key.
pub fn subject_public_key(oid: &[u8], key: &[u8], unused_bits: u8) -> (r: Option<PublicKey>)
    ensures
        match ed25519_subject_key(Some((oid@, key@, unused_bits))) {
            Some(k) => r matches Some(p) && p.bytes() == k,
            None => r is None,
        },
{
    if oid.len() != 3 || oid[0] != 43 || oid[1] != 101 || oid[2] != 112 {
        proof {
            if oid@.len() == 3 {
                assert(oid@ != OID_ED25519@);
            }
        }
        return None;
    }
    assert(oid@ =~= OID_ED25519@);
    if key.len() != 32 || unused_bits != 0 {
        return None;
    }
    let mut buf = [0u8; 32];
    let mut i: usize = 0;
    while i < 32
        invariant
            i <= 32,
            key@.len() == 32,
            forall|k: int| 0 <= k < i ==> buf@[k] == key@[k],
        decreases 32 - i,
    {
        buf[i] = key[i];
        i = i + 1;
    }
    assert(buf@ =~= key@);
    Some(PublicKey::from_bytes(buf))
}

/// The ed25519 public key of the subject of a DER certificate; `None` if the certificate does not
/// parse or holds no such key.
pub fn cert_public_key(der: &[u8]) -> (r: Option<PublicKey>)
    ensures
        match ed25519_subject_key(x509_subject_key(der@)) {
            Some(k) => r matches Some(p) && p.bytes() == k,
            None => r is None,
        },
{
    match parse_subject_key(der) {
        Some((oid, key, unused)) => subject_public_key(oid.as_slice(), key.as_slice(), unused),
        None => None,
    }
}

/// The public key that a server name stands for; `None` if the name is not a DNS name (given as
/// `None`) or not a canonical base64 public key.
pub fn server_name_public_key(dns_name: Option<&[u8]>) -> (r: Option<PublicKey>)
    ensures
        match server_name_key(opt_view(dns_name)) {
            Some(k) => r matches Some(p) && p.bytes() == k,
            None => r is None,
        },
{
    match dns_name {
        Some(n) => match PublicKey::from_base64(n) {
            Ok(k) => Some(k),
            Err(_) => None,
        },
        None => None,
    }
}

/// Decide on a server certificate whose ed25519 key, if any, is `cert_key`, sent with
/// `intermediates` intermediate certificates, for a connection to `dns_name`.
pub fn decide_server_cert(cert_key: Option<PublicKey>, intermediates: usize, dns_name: Option<&[u8]>) -> (r: bool)
    ensures
        r == accepts_server_cert(
            match cert_key {
                Some(k) => Some(k.bytes()),
                None => None,
            },
            intermediates as nat,
            opt_view(dns_name),
        ),
{
    if intermediates != 0 {
        return false;
    }
    let cert_key = match cert_key {
        Some(k) => k,
        None => {
            return false;
        },
    };
    match server_name_public_key(dns_name) {
        Some(name_key) => cert_key.equals(&name_key),
        None => false,
    }
}

/// Verify a server's DER certificate, sent with `intermediates` intermediate certificates, for a
/// connection to `dns_name`: accepted exactly when it has no intermediates, holds an ed25519 key,
/// and the server name is that key in base64.
pub fn verify_server_cert(end_entity: &[u8], intermediates: usize, dns_name: Option<&[u8]>) -> (r: bool)
    ensures
        r == accepts_server_cert(ed25519_subject_key(x509_subject_key(end_entity@)), intermediates as nat, opt_view(dns_name)),
{
    let key = cert_public_key(end_entity);
    decide_server_cert(key, intermediates, dns_name)
}

} // verus!
