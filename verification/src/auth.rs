//! Authentication: sealed handshake state, bearer tokens, and what the handlers of the
//! handshakes decide.
//!
//! Instants are nanoseconds since the Unix epoch.

use vstd::prelude::*;

pub mod crypto;
pub mod login;
pub mod middleware;
pub mod password_change;
pub mod registration;
pub mod state;

verus! {

/// The OPAQUE cipher suite of the service: Ristretto255 for the OPRF and the key exchange
/// group, triple Diffie-Hellman for the key exchange, Argon2 as the key stretching
/// function.
#[derive(Debug, Clone, Copy, PartialEq, Eq, Structural)]
pub struct AuthCipherSuite;

/// What a bearer token says: who the user is, and until when the token is valid.
#[derive(Debug, PartialEq, Eq)]
pub struct Token {
    pub user: String,
    pub expires: i128,
}

impl Token {
    pub fn new(user: String, expires: i128) -> (token: Self)
        ensures
            token.user == user,
            token.expires == expires,
    {
        Self { user, expires }
    }

    pub fn user(&self) -> (user: &str)
        ensures
            user@ == self.user@,
    {
        self.user.as_str()
    }

    pub fn expires(&self) -> (expires: i128)
        ensures
            expires == self.expires,
    {
        self.expires
    }
}

/// A serialized token with the server's signature.
#[derive(Debug, PartialEq, Eq)]
pub struct SignedToken {
    pub token_bytes: Vec<u8>,
    pub signature: [u8; 64],
}

impl SignedToken {
    pub fn new(token_bytes: Vec<u8>, signature: [u8; 64]) -> (signed: Self)
        ensures
            signed.token_bytes == token_bytes,
            signed.signature == signature,
    {
        Self { token_bytes, signature }
    }

    pub fn token_bytes(&self) -> (bytes: &[u8])
        ensures
            bytes@ == self.token_bytes@,
    {
        self.token_bytes.as_slice()
    }

    pub fn signature(&self) -> (signature: &[u8; 64])
        ensures
            *signature == self.signature,
    {
        &self.signature
    }
}

/// A signed token in base64, encrypted for the client that has just logged in.
#[derive(Debug, PartialEq, Eq)]
pub struct EncryptedToken {
    pub nonce: [u8; 12],
    pub tag: [u8; 16],
    pub token_bytes: Vec<u8>,
}

/// The serialized form of a token for `user` that is valid until `expires`.
pub uninterp spec fn token_encoding(user: Seq<char>, expires: int) -> Option<Seq<u8>>;

/// The user and the expiry of the token that a byte string is the serialized form of.
pub uninterp spec fn token_decoding(bytes: Seq<u8>) -> Option<(Seq<char>, int)>;

/// The serialized form of a signed token.
pub uninterp spec fn signed_token_encoding(token_bytes: Seq<u8>, signature: Seq<u8>) -> Option<
    Seq<u8>,
>;

/// The serialized token and the signature of the signed token that a byte string is the
/// serialized form of.
pub uninterp spec fn signed_token_decoding(bytes: Seq<u8>) -> Option<(Seq<u8>, Seq<u8>)>;

/// Serializes a token through `postcard::to_allocvec`: the user as text, then the expiry as
/// `time::OffsetDateTime` in UTC. An expiry outside the range of that type cannot be
/// serialized.
#[verifier::external_body]
pub(crate) fn encode_token(user: &str, expires: i128) -> (bytes: Option<Vec<u8>>)
    ensures
        match bytes {
            Some(bytes) => token_encoding(user@, expires as int) == Some(bytes@),
            None => token_encoding(user@, expires as int).is_none(),
        },
{
    match time::OffsetDateTime::from_unix_timestamp_nanos(expires) {
        Ok(expires) => postcard::to_allocvec(&(user, expires)).ok(),
        Err(_) => None,
    }
}

/// Reads a token through `postcard::from_bytes`: the user as text, then the expiry as
/// `time::OffsetDateTime`, of which the instant is kept.
#[verifier::external_body]
pub(crate) fn decode_token(bytes: &[u8]) -> (token: Option<Token>)
    ensures
        match token {
            Some(token) => token_decoding(bytes@) == Some((token.user@, token.expires as int)),
            None => token_decoding(bytes@).is_none(),
        },
{
    match postcard::from_bytes::<(String, time::OffsetDateTime)>(bytes) {
        Ok((user, expires)) => Some(Token { user, expires: expires.unix_timestamp_nanos() }),
        Err(_) => None,
    }
}

/// Serializes a signed token through `postcard::to_allocvec`: the serialized token as a
/// byte string, then the signature as `ed25519_dalek::Signature`.
#[verifier::external_body]
pub(crate) fn encode_signed_token(signed: &SignedToken) -> (bytes: Option<Vec<u8>>)
    ensures
        match bytes {
            Some(bytes) => signed_token_encoding(signed.token_bytes@, signed.signature@) == Some(
                bytes@,
            ),
            None => signed_token_encoding(signed.token_bytes@, signed.signature@).is_none(),
        },
{
    let signature = ed25519_dalek::Signature::from_bytes(&signed.signature);
    postcard::to_allocvec(&(&signed.token_bytes, signature)).ok()
}

/// Reads a signed token through `postcard::from_bytes`: the serialized token as a byte
/// string, then the signature as `ed25519_dalek::Signature`.
#[verifier::external_body]
pub(crate) fn decode_signed_token(bytes: &[u8]) -> (signed: Option<SignedToken>)
    ensures
        match signed {
            Some(signed) => signed_token_decoding(bytes@) == Some(
                (signed.token_bytes@, signed.signature@),
            ),
            None => signed_token_decoding(bytes@).is_none(),
        },
{
    match postcard::from_bytes::<(Vec<u8>, ed25519_dalek::Signature)>(bytes) {
        Ok((token_bytes, signature)) => Some(
            SignedToken { token_bytes, signature: signature.to_bytes() },
        ),
        Err(_) => None,
    }
}

} // verus!
