//! The primitives that the authentication protocol stands on. Each is computed by the crate
//! that implements it; what the rest of the library knows of a result is stated here.

use vstd::prelude::*;
use zeroize::Zeroizing;

verus! {

/// A derived key of 32 bytes. It is kept in `zeroize::Zeroizing`, which wipes the bytes
/// when the value is dropped.
#[verifier::external_body]
pub struct DerivedKey {
    bytes: Zeroizing<[u8; 32]>,
}

/// The bytes of a derived key.
pub uninterp spec fn derived_key_bytes(key: DerivedKey) -> Seq<u8>;

/// The 32 bytes of key material that HKDF with SHA-512 expands from `salt`, the input key
/// material `ikm` and `info`.
pub uninterp spec fn hkdf_sha512(salt: Seq<u8>, ikm: Seq<u8>, info: Seq<u8>) -> Seq<u8>;

/// The 32 bytes of key material that HKDF with SHA-512/256 expands from the input key
/// material `ikm` and `info`, without a salt.
pub uninterp spec fn hkdf_sha512_256(ikm: Seq<u8>, info: Seq<u8>) -> Seq<u8>;

/// The ciphertext and the tag that AES-256-GCM makes of `plaintext`.
pub uninterp spec fn aes256_gcm_sealed(
    key: Seq<u8>,
    nonce: Seq<u8>,
    associated_data: Seq<u8>,
    plaintext: Seq<u8>,
) -> Option<(Seq<u8>, Seq<u8>)>;

/// The plaintext that AES-256-GCM finds in `ciphertext`, if the tag fits.
pub uninterp spec fn aes256_gcm_opened(
    key: Seq<u8>,
    nonce: Seq<u8>,
    associated_data: Seq<u8>,
    ciphertext: Seq<u8>,
    tag: Seq<u8>,
) -> Option<Seq<u8>>;

/// Whether the strict Ed25519 verification accepts `signature` for `message` under `key`.
pub uninterp spec fn ed25519_accepts(key: Seq<u8>, message: Seq<u8>, signature: Seq<u8>) -> bool;

/// The Ed25519 signature of `message` under the signing key `secret`.
pub uninterp spec fn ed25519_signature(secret: Seq<u8>, message: Seq<u8>) -> Seq<u8>;

/// The bytes that a text in base64, with padding, stands for.
pub uninterp spec fn base64_decoded(text: Seq<u8>) -> Option<Seq<u8>>;

/// The text in base64, with padding, that stands for `bytes`.
pub uninterp spec fn base64_encoded(bytes: Seq<u8>) -> Seq<u8>;

/// Fills an array with bytes from the operating system's generator, through
/// `OsRng::try_fill_bytes`. Nothing is known of the bytes; the generator can fail.
#[verifier::external_body]
pub(crate) fn random_bytes<const N: usize>() -> (bytes: Option<[u8; N]>) {
    let mut bytes: [u8; N] = [0; N];
    match rand_core::RngCore::try_fill_bytes(&mut rand_core::OsRng, &mut bytes) {
        Ok(()) => Some(bytes),
        Err(_) => None,
    }
}

/// Derives a key through `Hkdf::<Sha512>::new`, with the salt, and `expand`, which refuses
/// only an output of more than 255 hash lengths: 32 bytes are always derived. The key is
/// expanded into a `Zeroizing` buffer.
#[verifier::external_body]
pub(crate) fn hkdf_sha512_expand(salt: &[u8; 32], ikm: &[u8], info: &[u8]) -> (key: Option<
    DerivedKey,
>)
    ensures
        key.is_some(),
        derived_key_bytes(key.unwrap()) == hkdf_sha512(salt@, ikm@, info@),
{
    let mut bytes: Zeroizing<[u8; 32]> = Zeroizing::new([0; 32]);
    match hkdf::Hkdf::<sha2::Sha512>::new(Some(salt.as_slice()), ikm).expand(
        info,
        bytes.as_mut_slice(),
    ) {
        Ok(()) => Some(DerivedKey { bytes }),
        Err(_) => None,
    }
}

/// Derives a key through `Hkdf::<Sha512_256>::new`, without a salt, and `expand`, which
/// refuses only an output of more than 255 hash lengths: 32 bytes are always derived. The
/// key is expanded into a `Zeroizing` buffer.
#[verifier::external_body]
pub(crate) fn hkdf_sha512_256_expand(ikm: &[u8], info: &[u8]) -> (key: Option<DerivedKey>)
    ensures
        key.is_some(),
        derived_key_bytes(key.unwrap()) == hkdf_sha512_256(ikm@, info@),
{
    let mut bytes: Zeroizing<[u8; 32]> = Zeroizing::new([0; 32]);
    match hkdf::Hkdf::<sha2::Sha512_256>::new(None, ikm).expand(info, bytes.as_mut_slice()) {
        Ok(()) => Some(DerivedKey { bytes }),
        Err(_) => None,
    }
}

/// Encrypts through `Aes256Gcm::encrypt_in_place_detached`, which refuses only a plaintext
/// or associated data that are too long. The ciphertext is as long as the plaintext, and
/// decryption under the same key, nonce and associated data gives the plaintext back.
#[verifier::external_body]
pub(crate) fn aes256_gcm_encrypt(
    key: &DerivedKey,
    nonce: &[u8; 12],
    associated_data: &[u8],
    plaintext: Vec<u8>,
) -> (sealed: Option<(Vec<u8>, [u8; 16])>)
    ensures
        match sealed {
            Some((ciphertext, tag)) => {
                &&& aes256_gcm_sealed(
                    derived_key_bytes(*key),
                    nonce@,
                    associated_data@,
                    plaintext@,
                ) == Some((ciphertext@, tag@))
                &&& aes256_gcm_opened(
                    derived_key_bytes(*key),
                    nonce@,
                    associated_data@,
                    ciphertext@,
                    tag@,
                ) == Some(plaintext@)
                &&& ciphertext@.len() == plaintext@.len()
            },
            None => aes256_gcm_sealed(
                derived_key_bytes(*key),
                nonce@,
                associated_data@,
                plaintext@,
            ).is_none(),
        },
{
    let cipher = <aes_gcm::Aes256Gcm as aes_gcm::KeyInit>::new((&*key.bytes).into());
    let mut buffer: Vec<u8> = plaintext;
    match aes_gcm::AeadInPlace::encrypt_in_place_detached(
        &cipher,
        nonce.into(),
        associated_data,
        &mut buffer,
    ) {
        Ok(tag) => Some((buffer, tag.into())),
        Err(_) => None,
    }
}

/// Decrypts through `Aes256Gcm::decrypt_in_place_detached`, which refuses a ciphertext
/// whose tag does not fit.
#[verifier::external_body]
pub(crate) fn aes256_gcm_decrypt(
    key: &DerivedKey,
    nonce: &[u8; 12],
    associated_data: &[u8],
    ciphertext: Vec<u8>,
    tag: &[u8; 16],
) -> (plaintext: Option<Vec<u8>>)
    ensures
        match plaintext {
            Some(plaintext) => aes256_gcm_opened(
                derived_key_bytes(*key),
                nonce@,
                associated_data@,
                ciphertext@,
                tag@,
            ) == Some(plaintext@),
            None => aes256_gcm_opened(
                derived_key_bytes(*key),
                nonce@,
                associated_data@,
                ciphertext@,
                tag@,
            ).is_none(),
        },
{
    let cipher = <aes_gcm::Aes256Gcm as aes_gcm::KeyInit>::new((&*key.bytes).into());
    let mut buffer: Vec<u8> = ciphertext;
    match aes_gcm::AeadInPlace::decrypt_in_place_detached(
        &cipher,
        nonce.into(),
        associated_data,
        &mut buffer,
        tag.into(),
    ) {
        Ok(()) => Some(buffer),
        Err(_) => None,
    }
}

/// Verifies through `VerifyingKey::verify_strict`. Bytes that are no verifying key accept
/// nothing.
#[verifier::external_body]
pub(crate) fn ed25519_verify_strict(key: &[u8; 32], message: &[u8], signature: &[u8; 64]) -> (accepted:
    bool)
    ensures
        accepted == ed25519_accepts(key@, message@, signature@),
{
    match ed25519_dalek::VerifyingKey::from_bytes(key) {
        Ok(key) => key.verify_strict(
            message,
            &ed25519_dalek::Signature::from_bytes(signature),
        ).is_ok(),
        Err(_) => false,
    }
}

/// Signs through `SigningKey::sign`.
#[verifier::external_body]
pub(crate) fn ed25519_sign(secret: &[u8; 32], message: &[u8]) -> (signature: [u8; 64])
    ensures
        signature@ == ed25519_signature(secret@, message@),
{
    let key = ed25519_dalek::SigningKey::from_bytes(secret);
    ed25519_dalek::Signer::sign(&key, message).to_bytes()
}

/// Decodes through `data_encoding::BASE64.decode`.
#[verifier::external_body]
pub(crate) fn base64_decode(text: &[u8]) -> (bytes: Option<Vec<u8>>)
    ensures
        match bytes {
            Some(bytes) => base64_decoded(text@) == Some(bytes@),
            None => base64_decoded(text@).is_none(),
        },
{
    data_encoding::BASE64.decode(text).ok()
}

/// Encodes through `data_encoding::BASE64.encode`.
#[verifier::external_body]
pub(crate) fn base64_encode(bytes: &[u8]) -> (text: Vec<u8>)
    ensures
        text@ == base64_encoded(bytes@),
{
    data_encoding::BASE64.encode(bytes).into_bytes()
}

/// Compares two byte strings through `subtle::ConstantTimeEq::ct_eq` on slices, in time
/// that depends on their lengths alone: true exactly when they hold the same bytes.
#[verifier::external_body]
pub(crate) fn constant_time_eq(left: &[u8], right: &[u8]) -> (same: bool)
    ensures
        same == (left@ == right@),
{
    subtle::ConstantTimeEq::ct_eq(left, right).into()
}

} // verus!
