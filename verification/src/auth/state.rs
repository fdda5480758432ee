//! Sealed server state. Between the two steps of a handshake the server keeps nothing: it
//! seals what it has to remember, hands the envelope to the client, and opens it again when
//! the client brings it back. The envelope is bound to a username, which goes into the key
//! derivation and is authenticated together with the ciphertext.

use std::marker::PhantomData;
use vstd::prelude::*;
use vstd::utf8::encode_utf8;

use super::crypto::{
    aes256_gcm_decrypt, aes256_gcm_encrypt, aes256_gcm_opened, aes256_gcm_sealed, hkdf_sha512,
    hkdf_sha512_expand, random_bytes, DerivedKey,
};

verus! {

pub type StateSalt = [u8; 32];

/// How long a sealed state, and a token, is valid: ten minutes, in nanoseconds.
pub const TEN_MINUTES: i128 = 600_000_000_000;

/// The instant ten minutes after `now`, both in nanoseconds since the Unix epoch, if it can
/// be told.
pub fn ten_minutes_from(now: i128) -> (until: Option<i128>)
    ensures
        until == if now + TEN_MINUTES <= i128::MAX {
            Some((now + TEN_MINUTES) as i128)
        } else {
            None::<i128>
        },
{
    now.checked_add(TEN_MINUTES)
}

/// Whether what is valid until `valid_until` has expired at `now`: it is valid only
/// before that instant.
pub fn is_expired(valid_until: i128, now: i128) -> (expired: bool)
    ensures
        expired == (valid_until <= now),
{
    valid_until <= now
}

/// Why a state could not be sealed.
#[derive(Debug, Clone, Copy, PartialEq, Eq, Structural)]
pub enum EncryptionError {
    /// The state could not be serialized.
    Serialization,
    /// The random generator failed.
    LowEntropy,
    /// The key could not be derived. A key of 32 bytes is always derived: sealing never
    /// fails with this.
    KeyDerivation,
    /// The serialized state could not be encrypted.
    Encryption,
}

/// Why an envelope could not be opened.
#[derive(Debug, Clone, Copy, PartialEq, Eq, Structural)]
pub enum DecryptionError {
    /// The key could not be derived. A key of 32 bytes is always derived: opening never
    /// fails with this.
    KeyDerivation,
    /// The envelope is not authentic: it was not sealed under this key and username, or it
    /// was changed.
    Encryption,
    /// What the envelope held is no state.
    Deserialization,
}

impl EncryptionError {
    pub fn message(&self) -> (text: &'static str)
        ensures
            text@ == match *self {
                EncryptionError::Serialization => "Serialization of state failed!"@,
                EncryptionError::LowEntropy => "Used PRNG has low entropy!"@,
                EncryptionError::KeyDerivation =>
                    "Key derivation failed because of internal error!"@,
                EncryptionError::Encryption => "Encryption of serialized state failed!"@,
            },
    {
        match self {
            EncryptionError::Serialization => "Serialization of state failed!",
            EncryptionError::LowEntropy => "Used PRNG has low entropy!",
            EncryptionError::KeyDerivation => "Key derivation failed because of internal error!",
            EncryptionError::Encryption => "Encryption of serialized state failed!",
        }
    }
}

impl DecryptionError {
    pub fn message(&self) -> (text: &'static str)
        ensures
            text@ == match *self {
                DecryptionError::KeyDerivation =>
                    "Key derivation failed because of internal error!"@,
                DecryptionError::Encryption => "Encryption of serialized state failed!"@,
                DecryptionError::Deserialization => "Deserialization of state failed!"@,
            },
    {
        match self {
            DecryptionError::KeyDerivation => "Key derivation failed because of internal error!",
            DecryptionError::Encryption => "Encryption of serialized state failed!",
            DecryptionError::Deserialization => "Deserialization of state failed!",
        }
    }
}

/// The envelope of a sealed state of type `State`: the ciphertext of the serialized state,
/// with the nonce, the tag and the salt that it was sealed with.
pub struct EncryptedServerState<State> {
    pub ciphertext: Vec<u8>,
    pub nonce: [u8; 12],
    pub tag: [u8; 16],
    pub salt: StateSalt,
    pub _state: PhantomData<State>,
}

/// What an envelope holds.
pub ghost struct Envelope {
    pub ciphertext: Seq<u8>,
    pub nonce: Seq<u8>,
    pub tag: Seq<u8>,
    pub salt: Seq<u8>,
}

impl<State> View for EncryptedServerState<State> {
    type V = Envelope;

    open spec fn view(&self) -> Envelope {
        Envelope {
            ciphertext: self.ciphertext@,
            nonce: self.nonce@,
            tag: self.tag@,
            salt: self.salt@,
        }
    }
}

/// The envelope that sealing `state` under `key` and `username` with this salt and nonce
/// gives: the key is derived from the salt, the server's key and the username; the
/// username is the associated data.
pub open spec fn seal_spec(
    state: Seq<u8>,
    key: Seq<u8>,
    username: Seq<char>,
    salt: Seq<u8>,
    nonce: Seq<u8>,
) -> Result<Envelope, EncryptionError> {
    match aes256_gcm_sealed(
        hkdf_sha512(salt, key, encode_utf8(username)),
        nonce,
        encode_utf8(username),
        state,
    ) {
        None => Err(EncryptionError::Encryption),
        Some((ciphertext, tag)) => Ok(Envelope { ciphertext, nonce, tag, salt }),
    }
}

/// The serialized state that opening `envelope` under `key` and `username` gives.
pub open spec fn unseal_spec(envelope: Envelope, key: Seq<u8>, username: Seq<char>) -> Result<
    Seq<u8>,
    DecryptionError,
> {
    match aes256_gcm_opened(
        hkdf_sha512(envelope.salt, key, encode_utf8(username)),
        envelope.nonce,
        encode_utf8(username),
        envelope.ciphertext,
        envelope.tag,
    ) {
        None => Err(DecryptionError::Encryption),
        Some(state) => Ok(state),
    }
}

/// A fresh salt.
pub fn new_salt() -> (salt: Result<StateSalt, EncryptionError>)
    ensures
        salt.is_err() ==> salt == Err::<StateSalt, EncryptionError>(EncryptionError::LowEntropy),
{
    match random_bytes::<32>() {
        Some(salt) => Ok(salt),
        None => Err(EncryptionError::LowEntropy),
    }
}

/// A fresh nonce.
pub fn new_nonce() -> (nonce: Result<[u8; 12], EncryptionError>)
    ensures
        nonce.is_err() ==> nonce == Err::<[u8; 12], EncryptionError>(
            EncryptionError::LowEntropy,
        ),
{
    match random_bytes::<12>() {
        Some(nonce) => Ok(nonce),
        None => Err(EncryptionError::LowEntropy),
    }
}

impl<State> EncryptedServerState<State> {
    /// Seals the serialized `state` under the server's `key` and `username`, with the salt
    /// and the nonce given. Opening the envelope under the same key and username gives the
    /// state back.
    pub fn seal_with(
        state: Vec<u8>,
        key: &[u8],
        username: &str,
        salt: StateSalt,
        nonce: [u8; 12],
    ) -> (sealed: Result<Self, EncryptionError>)
        ensures
            match sealed {
                Ok(sealed) => {
                    &&& seal_spec(state@, key@, username@, salt@, nonce@) == Ok::<
                        Envelope,
                        EncryptionError,
                    >(sealed@)
                    &&& unseal_spec(sealed@, key@, username@) == Ok::<Seq<u8>, DecryptionError>(
                        state@,
                    )
                    &&& sealed@.ciphertext.len() == state@.len()
                },
                Err(error) => seal_spec(state@, key@, username@, salt@, nonce@) == Err::<
                    Envelope,
                    EncryptionError,
                >(error) && error == EncryptionError::Encryption,
            },
    {
        let derived: DerivedKey = match hkdf_sha512_expand(&salt, key, username.as_bytes()) {
            Some(derived) => derived,
            None => {
                return Err(EncryptionError::KeyDerivation);
            },
        };
        match aes256_gcm_encrypt(&derived, &nonce, username.as_bytes(), state) {
            Some((ciphertext, tag)) => Ok(
                EncryptedServerState { ciphertext, nonce, tag, salt, _state: PhantomData },
            ),
            None => Err(EncryptionError::Encryption),
        }
    }

    /// Seals the serialized `state` under the server's `key` and `username`, with a fresh
    /// salt and a fresh nonce. Opening the envelope under the same key and username gives
    /// the state back.
    pub fn encrypt(state: Vec<u8>, key: &[u8], username: &str) -> (sealed: Result<
        Self,
        EncryptionError,
    >)
        ensures
            match sealed {
                Ok(sealed) => {
                    &&& seal_spec(state@, key@, username@, sealed@.salt, sealed@.nonce) == Ok::<
                        Envelope,
                        EncryptionError,
                    >(sealed@)
                    &&& unseal_spec(sealed@, key@, username@) == Ok::<Seq<u8>, DecryptionError>(
                        state@,
                    )
                    &&& sealed@.ciphertext.len() == state@.len()
                },
                Err(error) => error == EncryptionError::LowEntropy || error
                    == EncryptionError::Encryption,
            },
    {
        let salt: StateSalt = new_salt()?;
        let nonce: [u8; 12] = new_nonce()?;
        Self::seal_with(state, key, username, salt, nonce)
    }

    /// Opens the envelope under the server's `key` and `username` and returns the
    /// serialized state.
    pub fn decrypt(self, key: &[u8], username: &str) -> (state: Result<Vec<u8>, DecryptionError>)
        ensures
            match state {
                Ok(state) => unseal_spec(self@, key@, username@) == Ok::<
                    Seq<u8>,
                    DecryptionError,
                >(state@),
                Err(error) => unseal_spec(self@, key@, username@) == Err::<
                    Seq<u8>,
                    DecryptionError,
                >(error),
            },
    {
        let derived: DerivedKey = match hkdf_sha512_expand(&self.salt, key, username.as_bytes()) {
            Some(derived) => derived,
            None => {
                return Err(DecryptionError::KeyDerivation);
            },
        };
        match aes256_gcm_decrypt(
            &derived,
            &self.nonce,
            username.as_bytes(),
            self.ciphertext,
            &self.tag,
        ) {
            Some(state) => Ok(state),
            None => Err(DecryptionError::Encryption),
        }
    }
}

} // verus!
