//! Ed25519 keys: public keys as canonical url-safe base64, private keys as lower-hex, key pairs
//! whose halves match, and the names of key files.
use super::base64::{
    all_b64, all_hex, b64_extra_bits_zero, base64_bytes, base64_decode, base64_encode, base64_of,
    hex_bytes, hex_decode, hex_encode, hex_of,
};
use super::error::Error;
use crate::frame::common::{all_ascii, ascii_chars, ascii_to_str};
use vstd::prelude::*;
use vstd::string::StringExecFns;

verus! {

/// The ed25519 public key of a private key (a secret key of 32 bytes), as computed by
/// `ed25519_dalek`.
pub uninterp spec fn ed25519_public_key(private: Seq<u8>) -> Seq<u8>;

/// Wraps `ed25519_dalek::SigningKey::from_bytes`, then `verifying_key` and `as_bytes`: the 32
/// bytes of the public key of the given private key. The contract names the result; it claims
/// that it depends on the private key alone.
#[verifier::external_body]
fn verifying_key_bytes(private: [u8; 32]) -> (r: [u8; 32])
    ensures
        r@ == ed25519_public_key(private@),
{
    *ed25519_dalek::SigningKey::from_bytes(&private).verifying_key().as_bytes()
}

/// Wraps `rand::rngs::OsRng`'s `try_fill_bytes`: 32 bytes from the operating system's random
/// number generator, or `None` where that generator reports an error. Nothing is claimed of the
/// bytes, nor of when the generator fails.
#[verifier::external_body]
fn os_random_bytes() -> (r: Option<[u8; 32]>) {
    let mut buf = [0u8; 32];
    match rand::RngCore::try_fill_bytes(&mut rand::rngs::OsRng, &mut buf) {
        Ok(()) => Some(buf),
        Err(_) => None,
    }
}

/// Whether two 32-byte arrays are equal.
pub fn bytes32_eq(a: &[u8; 32], b: &[u8; 32]) -> (r: bool)
    ensures
        r == (a@ == b@),
{
    let mut i: usize = 0;
    while i < 32
        invariant
            i <= 32,
            a@.len() == 32,
            b@.len() == 32,
            forall|k: int| 0 <= k < i ==> a@[k] == b@[k],
        decreases 32 - i,
    {
        if a[i] != b[i] {
            return false;
        }
        i = i + 1;
    }
    assert(a@ =~= b@);
    true
}

/// A public key (ed25519).
#[derive(Copy, Clone)]
pub struct PublicKey([u8; 32]);

/// A private key (ed25519).
#[derive(Copy, Clone)]
pub struct PrivateKey([u8; 32]);

impl PublicKey {
    /// The key's bytes.
    pub closed spec fn bytes(&self) -> Seq<u8> {
        self.0@
    }

    /// Construct from public key raw bytes.
    pub fn from_bytes(bytes: [u8; 32]) -> (r: Self)
        ensures
            r.bytes() == bytes@,
    {
        PublicKey(bytes)
    }

    /// Get public key raw bytes.
    pub fn to_bytes(self) -> (r: [u8; 32])
        ensures
            r@ == self.bytes(),
            r@.len() == 32,
    {
        self.0
    }

    /// Parse from 43 characters of canonical url-safe base64.
    pub fn from_base64(string: &[u8]) -> (r: Result<Self, Error>)
        ensures
            string@.len() != 43 ==> r == Err::<Self, Error>(Error::Base64WrongLength),
            string@.len() == 43 && !all_b64(string@) ==> r == Err::<Self, Error>(
                Error::Base64IllegalCharacter,
            ),
            string@.len() == 43 && all_b64(string@) && !b64_extra_bits_zero(string@) ==> r
                == Err::<Self, Error>(Error::Base64ExtraBits),
            string@.len() == 43 && all_b64(string@) && b64_extra_bits_zero(string@) ==> (r matches Ok(
                k,
            ) && k.bytes() == base64_bytes(string@)),
    {
        match base64_decode(string) {
            Ok(b) => Ok(PublicKey(b)),
            Err(e) => Err(e),
        }
    }

    /// Encode as 43 characters of canonical url-safe base64.
    pub fn to_base64_bytes(self) -> (r: [u8; 43])
        ensures
            r@ == base64_of(self.bytes()),
    {
        base64_encode(self.0)
    }

    /// Encode as a string of canonical url-safe base64.
    pub fn to_base64(self) -> (r: String)
        ensures
            r@ == ascii_chars(base64_of(self.bytes())),
    {
        let b = self.to_base64_bytes();
        proof {
            lemma_base64_ascii(self.bytes());
        }
        let s = ascii_to_str(&b);
        match s {
            Some(s) => s.to_owned(),
            None => String::new(),
        }
    }

    /// Append the canonical url-safe base64 encoding to `buf`.
    pub fn encode_base64_buf(self, buf: &mut String)
        ensures
            final(buf)@ == old(buf)@ + ascii_chars(base64_of(self.bytes())),
    {
        let s = self.to_base64();
        buf.append(s.as_str());
    }

    /// Whether two public keys are equal.
    pub fn equals(&self, other: &Self) -> (r: bool)
        ensures
            r == (self.bytes() == other.bytes()),
    {
        bytes32_eq(&self.0, &other.0)
    }
}

/// Base64 characters are ASCII.
proof fn lemma_base64_ascii(b: Seq<u8>)
    ensures
        all_ascii(base64_of(b)),
{
}

/// Lower-hex characters are ASCII.
proof fn lemma_hex_ascii(b: Seq<u8>)
    ensures
        all_ascii(hex_of(b)),
{
    assert forall|k: int| 0 <= k < hex_of(b).len() implies #[trigger] hex_of(b)[k] < 128 by {
        let x = b[k / 2];
        assert(x >> 4 < 16 && x & 15 < 16) by (bit_vector);
    }
}

impl PrivateKey {
    /// The key's bytes.
    pub closed spec fn bytes(&self) -> Seq<u8> {
        self.0@
    }

    /// Construct from private key raw bytes.
    pub fn from_bytes(bytes: [u8; 32]) -> (r: Self)
        ensures
            r.bytes() == bytes@,
    {
        PrivateKey(bytes)
    }

    /// Get private key raw bytes.
    pub fn to_bytes(self) -> (r: [u8; 32])
        ensures
            r@ == self.bytes(),
            r@.len() == 32,
    {
        self.0
    }

    /// Randomly generate a private key with the operating system's random number generator;
    /// `None` if that generator fails.
    pub fn generate() -> (r: Option<Self>)
        ensures
            r matches Some(k) ==> k.bytes().len() == 32,
    {
        match os_random_bytes() {
            Some(bytes) => Some(PrivateKey(bytes)),
            None => None,
        }
    }

    /// The public key of this private key.
    pub fn to_public_key(self) -> (r: PublicKey)
        ensures
            r.bytes() == ed25519_public_key(self.bytes()),
    {
        PublicKey(verifying_key_bytes(self.0))
    }

    /// Parse from 64 lower-hex characters.
    pub fn from_hex(string: &[u8]) -> (r: Result<Self, Error>)
        ensures
            string@.len() != 64 ==> r == Err::<Self, Error>(Error::HexadecimalWrongLength),
            string@.len() == 64 && !all_hex(string@) ==> r == Err::<Self, Error>(
                Error::HexadecimalIllegalCharacter,
            ),
            string@.len() == 64 && all_hex(string@) ==> (r matches Ok(k) && k.bytes() == hex_bytes(
                string@,
            )),
    {
        match hex_decode(string) {
            Ok(b) => Ok(PrivateKey(b)),
            Err(e) => Err(e),
        }
    }

    /// Encode as 64 lower-hex characters.
    pub fn to_hex_bytes(self) -> (r: [u8; 64])
        ensures
            r@ == hex_of(self.bytes()),
    {
        hex_encode(self.0)
    }

    /// Encode as a lower-hex string.
    pub fn to_hex(self) -> (r: String)
        ensures
            r@ == ascii_chars(hex_of(self.bytes())),
    {
        let b = self.to_hex_bytes();
        proof {
            lemma_hex_ascii(self.bytes());
        }
        let s = ascii_to_str(&b);
        match s {
            Some(s) => s.to_owned(),
            None => String::new(),
        }
    }

    /// Append the lower-hex encoding to `buf`.
    pub fn encode_hex_buf(self, buf: &mut String)
        ensures
            final(buf)@ == old(buf)@ + ascii_chars(hex_of(self.bytes())),
    {
        let s = self.to_hex();
        buf.append(s.as_str());
    }
}

/// A public/private key pair (ed25519) whose public key is that of its private key.
#[derive(Copy, Clone)]
pub struct KeyPair {
    public: PublicKey,
    private: PrivateKey,
}

impl KeyPair {
    /// The public key.
    pub closed spec fn public_spec(&self) -> PublicKey {
        self.public
    }

    /// The private key.
    pub closed spec fn private_spec(&self) -> PrivateKey {
        self.private
    }

    /// The public key is that of the private key.
    pub open spec fn matches(&self) -> bool {
        self.public_spec().bytes() == ed25519_public_key(self.private_spec().bytes())
    }

    /// Construct from public and private keys, erroring if they do not match.
    pub fn new(public: PublicKey, private: PrivateKey) -> (r: Result<Self, Error>)
        ensures
            public.bytes() == ed25519_public_key(private.bytes()) ==> (r matches Ok(k) && k.public_spec()
                == public && k.private_spec() == private),
            public.bytes() != ed25519_public_key(private.bytes()) ==> r == Err::<Self, Error>(
                Error::KeyPairMismatch,
            ),
            r matches Ok(k) ==> k.matches(),
    {
        let derived = private.to_public_key();
        if derived.equals(&public) {
            Ok(KeyPair { public, private })
        } else {
            Err(Error::KeyPairMismatch)
        }
    }

    /// The key pair of a private key: its public key derived from it.
    pub fn from_private_key(private: PrivateKey) -> (r: Self)
        ensures
            r.private_spec() == private,
            r.public_spec().bytes() == ed25519_public_key(private.bytes()),
            r.matches(),
    {
        let public = private.to_public_key();
        KeyPair { public, private }
    }

    /// Randomly generate a key pair; `None` if the operating system's random number generator
    /// fails.
    pub fn generate() -> (r: Option<Self>)
        ensures
            r matches Some(k) ==> k.matches(),
    {
        match PrivateKey::generate() {
            Some(private) => Some(KeyPair::from_private_key(private)),
            None => None,
        }
    }

    /// Get the public key.
    pub fn public_key(self) -> (r: PublicKey)
        ensures
            r == self.public_spec(),
    {
        self.public
    }

    /// Get the private key.
    pub fn private_key(self) -> (r: PrivateKey)
        ensures
            r == self.private_spec(),
    {
        self.private
    }

    /// The name of this key pair's file: `qkai-`, the first 8 characters of the public key's
    /// base64, then `.secret`.
    pub fn file_name(self) -> (r: Vec<u8>)
        ensures
            r@ == key_file_name(self.public_spec().bytes()),
    {
        let b = self.public.to_base64_bytes();
        let mut name: Vec<u8> = Vec::new();
        name.push(113);
        name.push(107);
        name.push(97);
        name.push(105);
        name.push(45);
        let mut i: usize = 0;
        while i < 8
            invariant
                i <= 8,
                b@.len() == 43,
                name@ == KEY_FILE_PREFIX@ + b@.take(i as int),
            decreases 8 - i,
        {
            name.push(b[i]);
            assert(b@.take(i + 1) =~= b@.take(i as int).push(b@[i as int]));
            i = i + 1;
        }
        let suffix: [u8; 7] = KEY_FILE_SUFFIX;
        let mut j: usize = 0;
        while j < 7
            invariant
                j <= 7,
                suffix@ == KEY_FILE_SUFFIX@,
                name@ == KEY_FILE_PREFIX@ + b@.take(8) + suffix@.take(j as int),
            decreases 7 - j,
        {
            name.push(suffix[j]);
            assert(suffix@.take(j + 1) =~= suffix@.take(j as int).push(suffix@[j as int]));
            j = j + 1;
        }
        assert(suffix@.take(7) =~= suffix@);
        name
    }
}

impl PartialEq for KeyPair {
    fn eq(&self, rhs: &Self) -> (r: bool) {
        self.public.equals(&rhs.public)
    }
}

impl vstd::std_specs::cmp::PartialEqSpecImpl for KeyPair {
    open spec fn obeys_eq_spec() -> bool {
        true
    }

    open spec fn eq_spec(&self, rhs: &KeyPair) -> bool {
        self.public_spec().bytes() == rhs.public_spec().bytes()
    }
}

/// The beginning of a key file's name: `qkai-`.
pub const KEY_FILE_PREFIX: [u8; 5] = [113, 107, 97, 105, 45];

/// The end of a key file's name: `.secret`.
pub const KEY_FILE_SUFFIX: [u8; 7] = [46, 115, 101, 99, 114, 101, 116];

/// The size of the buffer a key pair file is read into; a file that fills it is refused.
pub const KEY_FILE_BUF_LEN: usize = 1024;

/// Check the number of bytes read so far from a key pair file: refused once they fill the
/// buffer.
pub fn check_key_file_len(read: usize) -> (r: Result<(), Error>)
    ensures
        r == (if read >= KEY_FILE_BUF_LEN {
            Err::<(), Error>(Error::KeyPairFileTooLarge)
        } else {
            Ok::<(), Error>(())
        }),
{
    if read >= KEY_FILE_BUF_LEN {
        Err(Error::KeyPairFileTooLarge)
    } else {
        Ok(())
    }
}

/// The name of the key file for a public key.
pub open spec fn key_file_name(public: Seq<u8>) -> Seq<u8> {
    KEY_FILE_PREFIX@ + base64_of(public).take(8) + KEY_FILE_SUFFIX@
}

/// Whether `a` and `b` agree on their first `n` bytes.
pub open spec fn agree_on(a: Seq<u8>, b: Seq<u8>, n: int) -> bool {
    forall|i: int| 0 <= i < n ==> #[trigger] a[i] == b[i]
}

/// Whether a file name has the form of a key file's name whose key part agrees with `prefix`
/// as far as both go.
pub open spec fn key_file_name_matches_spec(file_name: Seq<u8>, prefix: Seq<u8>) -> bool {
    &&& file_name.len() >= 12
    &&& file_name.take(5) == KEY_FILE_PREFIX@
    &&& file_name.skip(file_name.len() - 7) == KEY_FILE_SUFFIX@
    &&& agree_on(
        file_name.subrange(5, file_name.len() - 7),
        prefix,
        if file_name.len() - 12 < prefix.len() { file_name.len() - 12 } else { prefix.len() as int },
    )
}

/// Whether `file_name` is `qkai-[key part].secret` and the key part and `prefix` agree on their
/// common length.
pub fn key_file_name_matches(file_name: &[u8], prefix: &[u8]) -> (r: bool)
    ensures
        r == key_file_name_matches_spec(file_name@, prefix@),
{
    let n = file_name.len();
    if n < 12 {
        return false;
    }
    let pre: [u8; 5] = KEY_FILE_PREFIX;
    let mut i: usize = 0;
    while i < 5
        invariant
            n == file_name@.len(),
            n >= 12,
            i <= 5,
            pre@ == KEY_FILE_PREFIX@,
            forall|k: int| 0 <= k < i ==> file_name@[k] == pre@[k],
        decreases 5 - i,
    {
        if file_name[i] != pre[i] {
            assert(file_name@.take(5)[i as int] != KEY_FILE_PREFIX@[i as int]);
            return false;
        }
        i = i + 1;
    }
    assert(file_name@.take(5) =~= KEY_FILE_PREFIX@);
    let suf: [u8; 7] = KEY_FILE_SUFFIX;
    let mut j: usize = 0;
    while j < 7
        invariant
            n == file_name@.len(),
            n >= 12,
            j <= 7,
            suf@ == KEY_FILE_SUFFIX@,
            forall|k: int| 0 <= k < j ==> file_name@[n - 7 + k] == suf@[k],
        decreases 7 - j,
    {
        if file_name[n - 7 + j] != suf[j] {
            assert(file_name@.skip(n - 7)[j as int] != KEY_FILE_SUFFIX@[j as int]);
            return false;
        }
        j = j + 1;
    }
    assert(file_name@.skip(n - 7) =~= KEY_FILE_SUFFIX@);
    let key_len = n - 12;
    let common = if key_len < prefix.len() { key_len } else { prefix.len() };
    let mut k: usize = 0;
    while k < common
        invariant
            n == file_name@.len(),
            n >= 12,
            common <= n - 12,
            common <= prefix@.len(),
            k <= common,
            forall|q: int| 0 <= q < k ==> #[trigger] file_name@.subrange(5, n - 7)[q] == prefix@[q],
        decreases common - k,
    {
        if file_name[5 + k] != prefix[k] {
            assert(file_name@.subrange(5, n - 7)[k as int] == file_name@[5 + k]);
            return false;
        }
        assert(file_name@.subrange(5, n - 7)[k as int] == file_name@[5 + k]);
        k = k + 1;
    }
    true
}

/// Whether the base64 of the public key starts with `prefix`.
pub fn public_key_has_prefix(public: PublicKey, prefix: &[u8]) -> (r: bool)
    ensures
        r == (prefix@.len() <= 43 && base64_of(public.bytes()).take(prefix@.len() as int)
            == prefix@),
{
    let b = public.to_base64_bytes();
    if prefix.len() > 43 {
        return false;
    }
    let mut i: usize = 0;
    while i < prefix.len()
        invariant
            b@ == base64_of(public.bytes()),
            prefix@.len() <= 43,
            i <= prefix@.len(),
            forall|k: int| 0 <= k < i ==> b@[k] == prefix@[k],
        decreases prefix@.len() - i,
    {
        if b[i] != prefix[i] {
            assert(b@.take(prefix@.len() as int)[i as int] != prefix@[i as int]);
            return false;
        }
        i = i + 1;
    }
    assert(b@.take(prefix@.len() as int) =~= prefix@);
    true
}

} // verus!
