//! Error type of key and url handling.
use vstd::prelude::*;

verus! {

/// Errors of key and url handling.
#[derive(Debug, Copy, Clone, PartialEq, Eq, Structural)]
pub enum Error {
    /// Public and private keys do not match.
    KeyPairMismatch,
    /// Base64 of the wrong length for an ed25519 key.
    Base64WrongLength,
    /// Base64 contained a character outside the url-safe alphabet.
    Base64IllegalCharacter,
    /// Base64 had non-zero extra bits in its final character.
    Base64ExtraBits,
    /// Hexadecimal of the wrong length for an ed25519 key.
    HexadecimalWrongLength,
    /// Hexadecimal contained a character that is not lower-hex.
    HexadecimalIllegalCharacter,
    /// Url too long to be valid.
    UrlTooLong,
    /// Url too short (after the optional scheme) to be valid.
    UrlTooShort,
    /// Url missing the `@` at its expected place.
    UrlMissingAtSymbol,
    /// Url missing the colon in the expected range.
    UrlMissingColon,
    /// Url ip address too short.
    UrlIpAddrTooShort,
    /// Url ipv6 address not utf8.
    UrlIpv6AddrNonUtf8,
    /// Url ipv6 address not valid.
    UrlIpv6AddrInvalid,
    /// Url ipv4 address not utf8.
    UrlIpv4AddrNonUtf8,
    /// Url ipv4 address not valid.
    UrlIpv4AddrInvalid,
    /// Url port was empty.
    UrlEmptyPort,
    /// Url port not utf8.
    UrlPortNonUtf8,
    /// Url port not valid.
    UrlPortInvalid,
    /// Key pair file too large.
    KeyPairFileTooLarge,
    /// Key pair file already exists with different content.
    KeyPairFileDifferentContent,
    /// No suitable key pair file found.
    KeyPairNotFound,
    /// Conversion to a socket address failed.
    ToSocketAddrFail,
    /// New stream channel dropped.
    NewStreamChannelDropped,
    /// Could not bind either an ipv4 or an ipv6 address.
    CouldNotBindClient,
}

} // verus!
