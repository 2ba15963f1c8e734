use aqueduct::qkai::base64::{base64_decode, base64_encode, hex_decode, hex_encode};
use aqueduct::qkai::ed25519::{key_file_name_matches, public_key_has_prefix, KeyPair, PrivateKey, PublicKey};
use aqueduct::qkai::cert::{
    cert_public_key, decide_server_cert, server_name_public_key, subject_public_key,
    verify_server_cert, OID_ED25519,
};
use aqueduct::qkai::ed25519::{check_key_file_len, KEY_FILE_BUF_LEN};
use aqueduct::qkai::error::Error;
use aqueduct::qkai::url::check_port;
use ed25519_dalek::pkcs8::EncodePrivateKey;
use aqueduct::qkai::url::split_url;

#[test]
fn base64_foobar() {}

#[test]
fn ed25519_foobar() {
    let keys = KeyPair::generate().unwrap();
    assert!(PublicKey::from_base64(&keys.public_key().to_base64_bytes())
        .ok()
        .unwrap()
        .equals(&keys.public_key()));
    assert_eq!(
        PrivateKey::from_hex(&keys.private_key().to_hex_bytes()).ok().unwrap().to_bytes(),
        keys.private_key().to_bytes(),
    );
}

#[test]
fn base64_roundtrip_of_counting_bytes() {
    let mut bytes = [0u8; 32];
    for (i, b) in bytes.iter_mut().enumerate() {
        *b = (i * 7 + 3) as u8;
    }
    let enc = base64_encode(bytes);
    assert_eq!(base64_decode(&enc), Ok(bytes));
    let hex = hex_encode(bytes);
    assert_eq!(hex_decode(&hex), Ok(bytes));
}

#[test]
fn base64_known_values() {
    assert_eq!(&base64_encode([0u8; 32])[..], &[b'A'; 43][..]);
    assert_eq!(&base64_encode([0xffu8; 32])[..42], &[b'_'; 42][..]);
    assert_eq!(base64_encode([0xffu8; 32])[42], b'8');
    let mut b = [0u8; 32];
    b[0] = 0xfb;
    assert_eq!(&base64_encode(b)[..2], b"-w");
}

#[test]
fn base64_errors() {
    assert_eq!(base64_decode(&[b'A'; 42]), Err(Error::Base64WrongLength));
    let mut s = [b'A'; 43];
    s[10] = b'+';
    assert_eq!(base64_decode(&s), Err(Error::Base64IllegalCharacter));
    let mut s = [b'A'; 43];
    s[42] = b'B';
    assert_eq!(base64_decode(&s), Err(Error::Base64ExtraBits));
}

#[test]
fn hex_known_values_and_errors() {
    let mut b = [0u8; 32];
    b[0] = 0xab;
    b[31] = 0x09;
    let h = hex_encode(b);
    assert_eq!(&h[..2], b"ab");
    assert_eq!(&h[62..], b"09");
    assert_eq!(hex_decode(&h[..63]), Err(Error::HexadecimalWrongLength));
    let mut bad = h;
    bad[5] = b'A';
    assert_eq!(hex_decode(&bad), Err(Error::HexadecimalIllegalCharacter));
}

fn unhex(s: &str) -> [u8; 32] {
    hex_decode(s.as_bytes()).ok().unwrap()
}

#[test]
fn public_key_of_rfc8032_secret() {
    let private = PrivateKey::from_bytes(unhex("9d61b19deffd5a60ba844af492ec2cc44449c5697b326919703bac031cae7f60"));
    let public = private.to_public_key();
    assert_eq!(public.to_bytes(), unhex("d75a980182b10ab7d54bfed3c964073a0ee172f3daa62325af021a68f707511a"));
    assert!(KeyPair::new(public, private).is_ok());
    let wrong = PublicKey::from_bytes(private.to_bytes());
    assert_eq!(KeyPair::new(wrong, private).err(), Some(Error::KeyPairMismatch));
}

#[test]
fn key_file_names() {
    let keys = KeyPair::generate().unwrap();
    let name = keys.file_name();
    assert_eq!(&name[..5], b"qkai-");
    assert_eq!(&name[13..], b".secret");
    assert_eq!(&name[5..13], &keys.public_key().to_base64_bytes()[..8]);
    assert!(key_file_name_matches(&name, b""));
    assert!(key_file_name_matches(&name, &keys.public_key().to_base64_bytes()));
    assert!(!key_file_name_matches(b"qkai-.secre", b""));
    assert!(!key_file_name_matches(b"xkai-AAAA.secret", b""));
    assert!(public_key_has_prefix(keys.public_key(), &keys.public_key().to_base64_bytes()[..5]));
    assert!(!public_key_has_prefix(keys.public_key(), &[b'!']));
}

#[test]
fn url_split() {
    let url = b"qkai://KpEkgtLmGEs4JMD-uSSNMF_EnOQYesylTkvohvggK3A@127.0.0.1:8686";
    let p = split_url(url).ok().unwrap();
    assert!(!p.is_ipv6);
    assert_eq!(p.ip, b"127.0.0.1".to_vec());
    assert_eq!(p.port, b"8686".to_vec());
    assert_eq!(&p.public_key.to_base64_bytes()[..], &url[7..50]);
    let p6 = split_url(b"KpEkgtLmGEs4JMD-uSSNMF_EnOQYesylTkvohvggK3A@[::1]:80").ok().unwrap();
    assert!(p6.is_ipv6);
    assert_eq!(p6.ip, b"::1".to_vec());
    assert_eq!(p6.port, b"80".to_vec());
}

#[test]
fn url_split_errors() {
    assert_eq!(split_url(&[b'a'; 105]).err(), Some(Error::UrlTooLong));
    assert_eq!(split_url(b"qkai://abc").err(), Some(Error::UrlTooShort));
    assert_eq!(split_url(b"KpEkgtLmGEs4JMD-uSSNMF_EnOQYesylTkvohvggK3A#1.2.3.4:5").err(), Some(Error::UrlMissingAtSymbol));
    assert_eq!(split_url(b"KpEkgtLmGEs4JMD-uSSNMF_EnOQYesylTkvohvggK3A@1.2.3.4.5.6.7").err(), Some(Error::UrlMissingColon));
    assert_eq!(split_url(b"KpEkgtLmGEs4JMD-uSSNMF_EnOQYesylTkvohvggK3A@1:2").err(), Some(Error::UrlIpAddrTooShort));
    assert_eq!(split_url(b"KpEkgtLmGEs4JMD-uSSNMF_EnOQYesylTkvohvggK3B@1.2.3.4:5").err(), Some(Error::Base64ExtraBits));
}

#[test]
fn url_foobar() {
    let url = b"qkai://KpEkgtLmGEs4JMD-uSSNMF_EnOQYesylTkvohvggK3A@127.0.0.1:8686";
    let parts = split_url(url).ok().unwrap();
    assert!(!parts.is_ipv6);
    assert_eq!(parts.ip, b"127.0.0.1".to_vec());
    assert_eq!(parts.port, b"8686".to_vec());
    let mut again = parts.public_key.to_base64().into_bytes();
    again.push(b'@');
    again.extend_from_slice(&parts.ip);
    again.push(b':');
    again.extend_from_slice(&parts.port);
    let reparsed = split_url(&again).ok().unwrap();
    assert!(reparsed.public_key.equals(&parts.public_key));
    assert_eq!(reparsed.ip, parts.ip);
    assert_eq!(reparsed.port, parts.port);
    assert_eq!(reparsed.is_ipv6, parts.is_ipv6);
}

#[test]
fn encode_into_buffers_appends() {
    let key = PublicKey::from_bytes([0u8; 32]);
    let mut buf = String::from("key=");
    key.encode_base64_buf(&mut buf);
    assert_eq!(buf, format!("key={}", "A".repeat(43)));
    let private = PrivateKey::from_bytes([0xab; 32]);
    let mut hex = String::from(">");
    private.encode_hex_buf(&mut hex);
    assert_eq!(hex, format!(">{}", "ab".repeat(32)));
}

fn self_signed_cert_der(keys: KeyPair) -> Vec<u8> {
    let signing = ed25519_dalek::SigningKey::from_bytes(&keys.private_key().to_bytes());
    let pkcs8 = signing.to_pkcs8_der().unwrap();
    let rc_key = rcgen::KeyPair::try_from(pkcs8.as_bytes()).unwrap();
    let params = rcgen::CertificateParams::new(vec![keys.public_key().to_base64()]).unwrap();
    let cert = params.self_signed(&rc_key).unwrap();
    cert.der().to_vec()
}

#[test]
fn crypto_conversions_foobar() {
    let key = KeyPair::generate().unwrap();
    let der = self_signed_cert_der(key);
    assert!(cert_public_key(&der).unwrap().equals(&key.public_key()));
}

#[test]
fn server_cert_accepted_only_for_its_key() {
    let key = KeyPair::generate().unwrap();
    let other = KeyPair::generate().unwrap();
    let der = self_signed_cert_der(key);
    let name = key.public_key().to_base64();
    let other_name = other.public_key().to_base64();
    assert!(verify_server_cert(&der, 0, Some(name.as_bytes())));
    assert!(!verify_server_cert(&der, 1, Some(name.as_bytes())));
    assert!(!verify_server_cert(&der, 0, Some(other_name.as_bytes())));
    assert!(!verify_server_cert(&der, 0, None));
    assert!(!verify_server_cert(b"not a certificate", 0, Some(name.as_bytes())));
    assert!(cert_public_key(b"not a certificate").is_none());
}

#[test]
fn subject_key_and_server_name_decisions() {
    let bytes = [7u8; 32];
    let k = subject_public_key(&OID_ED25519, &bytes, 0).unwrap();
    assert_eq!(k.to_bytes(), bytes);
    assert!(subject_public_key(&[42, 134, 72], &bytes, 0).is_none());
    assert!(subject_public_key(&OID_ED25519, &bytes[..31], 0).is_none());
    assert!(subject_public_key(&OID_ED25519, &bytes, 1).is_none());
    let name = PublicKey::from_bytes(bytes).to_base64();
    assert!(server_name_public_key(Some(name.as_bytes())).unwrap().equals(&k));
    assert!(server_name_public_key(Some(b"example.com")).is_none());
    assert!(server_name_public_key(None).is_none());
    assert!(decide_server_cert(Some(k), 0, Some(name.as_bytes())));
    assert!(!decide_server_cert(None, 0, Some(name.as_bytes())));
}

#[test]
fn key_file_len_and_port_checks() {
    assert_eq!(KEY_FILE_BUF_LEN, 1024);
    assert_eq!(check_key_file_len(1023), Ok(()));
    assert_eq!(check_key_file_len(1024), Err(Error::KeyPairFileTooLarge));
    assert_eq!(check_port(b""), Err(Error::UrlEmptyPort));
    assert_eq!(check_port(b"8686"), Ok(()));
}

#[test]
fn key_pair_from_private_key_matches() {
    let private = PrivateKey::from_bytes([1u8; 32]);
    let pair = KeyPair::from_private_key(private);
    assert!(pair.public_key().equals(&private.to_public_key()));
    assert_eq!(pair.private_key().to_bytes(), [1u8; 32]);
    assert!(KeyPair::new(pair.public_key(), private).is_ok());
}
