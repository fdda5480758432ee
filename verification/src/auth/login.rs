//! What the two handlers of the login decide, and the token that a login ends with.
//!
//! A handler answers with a status and, for the log, a short tag that says which step
//! failed. The client learns no more than the status.

use vstd::prelude::*;
use vstd::utf8::encode_utf8;

use super::crypto::{
    aes256_gcm_encrypt, aes256_gcm_sealed, base64_encode, base64_encoded, constant_time_eq,
    derived_key_bytes, ed25519_sign, ed25519_signature, hkdf_sha512_256,
    hkdf_sha512_256_expand, random_bytes, DerivedKey,
};
use super::state::{is_expired, ten_minutes_from, TEN_MINUTES};
use super::{
    encode_signed_token, encode_token, signed_token_encoding, token_encoding, EncryptedToken,
    SignedToken,
};

verus! {

/// Why the first step of a login failed.
#[derive(Debug, Clone, Copy, PartialEq, Eq, Structural)]
pub enum InitiationFailure {
    /// The request is malformed.
    MalformedRequest,
    /// The password file could not be looked up.
    Database,
    /// The stored server setup cannot be read.
    StoredSetup,
    /// The stored password file cannot be read.
    StoredPasswordFile,
    /// The OPAQUE protocol refused the credential request.
    Protocol,
    /// The server state could not be sealed.
    Sealing,
    /// The response could not be serialized.
    Serialization,
}

impl InitiationFailure {
    pub open spec fn spec_status_code(&self) -> u16 {
        match *self {
            InitiationFailure::MalformedRequest | InitiationFailure::Protocol => 400,
            _ => 500,
        }
    }

    #[verifier::when_used_as_spec(spec_status_code)]
    pub fn status_code(&self) -> (status: u16)
        ensures
            status == self.spec_status_code(),
    {
        match self {
            InitiationFailure::MalformedRequest | InitiationFailure::Protocol => 400,
            _ => 500,
        }
    }

    pub fn tag(&self) -> (tag: &'static str)
        ensures
            tag@ == match *self {
                InitiationFailure::MalformedRequest => ""@,
                InitiationFailure::Database => "1"@,
                InitiationFailure::StoredSetup => "1.3"@,
                InitiationFailure::StoredPasswordFile => "1.7"@,
                InitiationFailure::Protocol => "2"@,
                InitiationFailure::Sealing => "3"@,
                InitiationFailure::Serialization => "4"@,
            },
    {
        match self {
            InitiationFailure::MalformedRequest => "",
            InitiationFailure::Database => "1",
            InitiationFailure::StoredSetup => "1.3",
            InitiationFailure::StoredPasswordFile => "1.7",
            InitiationFailure::Protocol => "2",
            InitiationFailure::Sealing => "3",
            InitiationFailure::Serialization => "4",
        }
    }
}

/// Why the second step of a login failed.
#[derive(Debug, Clone, Copy, PartialEq, Eq, Structural)]
pub enum ConclusionFailure {
    /// The request is malformed.
    MalformedRequest,
    /// The sealed state cannot be opened under the username of the request.
    Unsealing,
    /// The username of the request is not as long as the sealed one.
    UsernameLength,
    /// The username of the request is not the sealed one.
    UsernameMismatch,
    /// The sealed state has expired.
    Expired,
    /// The key for the token could not be derived from the session key. A key of this
    /// length is always derived: no function of this library fails with it.
    KeyDerivation,
    /// The OPAQUE protocol refused the credential finalization.
    Protocol,
    /// The token could not be serialized.
    TokenSerialization,
    /// The signed token could not be serialized.
    SignedTokenSerialization,
    /// The random generator failed.
    LowEntropy,
    /// The token could not be encrypted.
    TokenEncryption,
    /// The response could not be serialized.
    Serialization,
}

impl ConclusionFailure {
    pub open spec fn spec_status_code(&self) -> u16 {
        match *self {
            ConclusionFailure::MalformedRequest
            | ConclusionFailure::Unsealing
            | ConclusionFailure::UsernameLength
            | ConclusionFailure::UsernameMismatch
            | ConclusionFailure::Expired
            | ConclusionFailure::Protocol => 400,
            _ => 500,
        }
    }

    #[verifier::when_used_as_spec(spec_status_code)]
    pub fn status_code(&self) -> (status: u16)
        ensures
            status == self.spec_status_code(),
    {
        match self {
            ConclusionFailure::MalformedRequest
            | ConclusionFailure::Unsealing
            | ConclusionFailure::UsernameLength
            | ConclusionFailure::UsernameMismatch
            | ConclusionFailure::Expired
            | ConclusionFailure::Protocol => 400,
            _ => 500,
        }
    }

    pub fn tag(&self) -> (tag: &'static str)
        ensures
            tag@ == match *self {
                ConclusionFailure::MalformedRequest => "1"@,
                ConclusionFailure::Unsealing => "2"@,
                ConclusionFailure::UsernameLength => "3"@,
                ConclusionFailure::UsernameMismatch => "4"@,
                ConclusionFailure::Expired => "5"@,
                ConclusionFailure::KeyDerivation => "7"@,
                ConclusionFailure::Protocol => "8"@,
                ConclusionFailure::TokenSerialization => "9"@,
                ConclusionFailure::SignedTokenSerialization => "10"@,
                ConclusionFailure::LowEntropy => "11"@,
                ConclusionFailure::TokenEncryption => "12"@,
                ConclusionFailure::Serialization => "13"@,
            },
    {
        match self {
            ConclusionFailure::MalformedRequest => "1",
            ConclusionFailure::Unsealing => "2",
            ConclusionFailure::UsernameLength => "3",
            ConclusionFailure::UsernameMismatch => "4",
            ConclusionFailure::Expired => "5",
            ConclusionFailure::KeyDerivation => "7",
            ConclusionFailure::Protocol => "8",
            ConclusionFailure::TokenSerialization => "9",
            ConclusionFailure::SignedTokenSerialization => "10",
            ConclusionFailure::LowEntropy => "11",
            ConclusionFailure::TokenEncryption => "12",
            ConclusionFailure::Serialization => "13",
        }
    }
}

/// What the checks of the second step say of an opened state: the username of the request
/// has to be as long as the sealed one, then the same, and the state must not have expired.
pub open spec fn conclusion_spec(
    username: Seq<char>,
    sealed_user: Seq<char>,
    valid_until: int,
    now: int,
) -> Result<(), ConclusionFailure> {
    if encode_utf8(username).len() != encode_utf8(sealed_user).len() {
        Err(ConclusionFailure::UsernameLength)
    } else if encode_utf8(username) != encode_utf8(sealed_user) {
        Err(ConclusionFailure::UsernameMismatch)
    } else if valid_until <= now {
        Err(ConclusionFailure::Expired)
    } else {
        Ok(())
    }
}

/// Checks an opened state against the request that brought it back. The lengths of the
/// two usernames are compared first; the names themselves in constant time.
pub fn check_conclusion(username: &str, sealed_user: &str, valid_until: i128, now: i128) -> (verdict:
    Result<(), ConclusionFailure>)
    ensures
        verdict == conclusion_spec(username@, sealed_user@, valid_until as int, now as int),
        verdict.is_ok() <==> username@ == sealed_user@ && valid_until > now,
{
    proof {
        vstd::utf8::encode_utf8_decode_utf8(username@);
        vstd::utf8::encode_utf8_decode_utf8(sealed_user@);
    }
    if username.as_bytes().len() != sealed_user.as_bytes().len() {
        return Err(ConclusionFailure::UsernameLength);
    }
    if !constant_time_eq(username.as_bytes(), sealed_user.as_bytes()) {
        return Err(ConclusionFailure::UsernameMismatch);
    }
    if is_expired(valid_until, now) {
        return Err(ConclusionFailure::Expired);
    }
    Ok(())
}

/// The text that carries a token for `user`, valid until `expires`: base64 of the
/// serialized signed token.
pub open spec fn token_text_spec(user: Seq<char>, expires: int, signing_key: Seq<u8>) -> Result<
    Seq<u8>,
    ConclusionFailure,
> {
    match token_encoding(user, expires) {
        None => Err(ConclusionFailure::TokenSerialization),
        Some(token_bytes) => match signed_token_encoding(
            token_bytes,
            ed25519_signature(signing_key, token_bytes),
        ) {
            None => Err(ConclusionFailure::SignedTokenSerialization),
            Some(signed) => Ok(base64_encoded(signed)),
        },
    }
}

/// Builds, signs and encodes a token for `user` that is valid until `expires`.
pub fn token_text(user: &str, expires: i128, signing_key: &[u8; 32]) -> (text: Result<
    Vec<u8>,
    ConclusionFailure,
>)
    ensures
        match text {
            Ok(text) => token_text_spec(user@, expires as int, signing_key@) == Ok::<
                Seq<u8>,
                ConclusionFailure,
            >(text@),
            Err(error) => token_text_spec(user@, expires as int, signing_key@) == Err::<
                Seq<u8>,
                ConclusionFailure,
            >(error),
        },
{
    let token_bytes: Vec<u8> = match encode_token(user, expires) {
        Some(bytes) => bytes,
        None => {
            return Err(ConclusionFailure::TokenSerialization);
        },
    };
    let signature: [u8; 64] = ed25519_sign(signing_key, token_bytes.as_slice());
    let signed: SignedToken = SignedToken::new(token_bytes, signature);
    match encode_signed_token(&signed) {
        Some(bytes) => Ok(base64_encode(bytes.as_slice())),
        None => Err(ConclusionFailure::SignedTokenSerialization),
    }
}

/// The encrypted token that a login under `username` with this session key ends with,
/// where the token is valid until `expires` and is encrypted with this nonce. The key is
/// derived from the session key and the username; there is no associated data.
pub open spec fn issue_spec(
    user: Seq<char>,
    expires: int,
    signing_key: Seq<u8>,
    session_key: Seq<u8>,
    username: Seq<char>,
    nonce: Seq<u8>,
) -> Result<(Seq<u8>, Seq<u8>), ConclusionFailure> {
    match token_text_spec(user, expires, signing_key) {
        Err(error) => Err(error),
        Ok(text) => match aes256_gcm_sealed(
            hkdf_sha512_256(session_key, encode_utf8(username)),
            nonce,
            Seq::empty(),
            text,
        ) {
            None => Err(ConclusionFailure::TokenEncryption),
            Some(sealed) => Ok(sealed),
        },
    }
}

/// Derives the key that the token is encrypted under, from the session key and the
/// username.
fn derive_token_key(session_key: &[u8], username: &str) -> (key: Result<
    DerivedKey,
    ConclusionFailure,
>)
    ensures
        key.is_ok(),
        derived_key_bytes(key.unwrap()) == hkdf_sha512_256(session_key@, encode_utf8(username@)),
{
    match hkdf_sha512_256_expand(session_key, username.as_bytes()) {
        Some(key) => Ok(key),
        None => Err(ConclusionFailure::KeyDerivation),
    }
}

/// Encrypts the text of a token under `key` with the nonce given.
fn encrypt_token(key: &DerivedKey, nonce: [u8; 12], text: Vec<u8>) -> (token: Result<
    EncryptedToken,
    ConclusionFailure,
>)
    ensures
        match token {
            Ok(token) => token.nonce == nonce && aes256_gcm_sealed(
                derived_key_bytes(*key),
                nonce@,
                Seq::empty(),
                text@,
            ) == Some((token.token_bytes@, token.tag@)) && token.token_bytes@.len() == text@.len(),
            Err(error) => error == ConclusionFailure::TokenEncryption && aes256_gcm_sealed(
                derived_key_bytes(*key),
                nonce@,
                Seq::empty(),
                text@,
            ).is_none(),
        },
{
    let nothing: [u8; 0] = [];
    assert(nothing@ =~= Seq::<u8>::empty());
    match aes256_gcm_encrypt(key, &nonce, nothing.as_slice(), text) {
        Some((token_bytes, tag)) => Ok(EncryptedToken { nonce, tag, token_bytes }),
        None => Err(ConclusionFailure::TokenEncryption),
    }
}

/// Issues the encrypted token for `user`, valid until `expires`, with the nonce given.
pub fn issue_token_with(
    user: &str,
    expires: i128,
    signing_key: &[u8; 32],
    session_key: &[u8],
    username: &str,
    nonce: [u8; 12],
) -> (token: Result<EncryptedToken, ConclusionFailure>)
    ensures
        match token {
            Ok(token) => token.nonce == nonce && issue_spec(
                user@,
                expires as int,
                signing_key@,
                session_key@,
                username@,
                nonce@,
            ) == Ok::<(Seq<u8>, Seq<u8>), ConclusionFailure>((token.token_bytes@, token.tag@)),
            Err(error) => issue_spec(
                user@,
                expires as int,
                signing_key@,
                session_key@,
                username@,
                nonce@,
            ) == Err::<(Seq<u8>, Seq<u8>), ConclusionFailure>(error),
        },
{
    let key: DerivedKey = derive_token_key(session_key, username)?;
    let text: Vec<u8> = token_text(user, expires, signing_key)?;
    encrypt_token(&key, nonce, text)
}

/// Issues the encrypted token that a login at `now` ends with: a token for `user` that is
/// valid for ten minutes, encrypted with a fresh nonce. An expiry that cannot be told
/// counts as a token that cannot be serialized. The token is built and signed before the
/// nonce is drawn: what fails there fails on every call.
pub fn issue_token(
    user: &str,
    now: i128,
    signing_key: &[u8; 32],
    session_key: &[u8],
    username: &str,
) -> (token: Result<EncryptedToken, ConclusionFailure>)
    ensures
        now + TEN_MINUTES > i128::MAX ==> token == Err::<EncryptedToken, ConclusionFailure>(
            ConclusionFailure::TokenSerialization,
        ),
        now + TEN_MINUTES <= i128::MAX ==> match token_text_spec(
            user@,
            now + TEN_MINUTES,
            signing_key@,
        ) {
            Err(error) => token == Err::<EncryptedToken, ConclusionFailure>(error),
            Ok(_) => match token {
                Ok(token) => issue_spec(
                    user@,
                    now + TEN_MINUTES,
                    signing_key@,
                    session_key@,
                    username@,
                    token.nonce@,
                ) == Ok::<(Seq<u8>, Seq<u8>), ConclusionFailure>(
                    (token.token_bytes@, token.tag@),
                ),
                Err(error) => error == ConclusionFailure::LowEntropy || error
                    == ConclusionFailure::TokenEncryption,
            },
        },
{
    let expires: i128 = match ten_minutes_from(now) {
        Some(expires) => expires,
        None => {
            return Err(ConclusionFailure::TokenSerialization);
        },
    };
    let key: DerivedKey = derive_token_key(session_key, username)?;
    let text: Vec<u8> = token_text(user, expires, signing_key)?;
    match random_bytes::<12>() {
        Some(nonce) => encrypt_token(&key, nonce, text),
        None => Err(ConclusionFailure::LowEntropy),
    }
}

} // verus!
