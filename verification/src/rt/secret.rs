//! Secrets are kept in `zeroize::Zeroizing`, which wipes the bytes when the value is dropped.

use vstd::prelude::*;
use zeroize::Zeroizing;

verus! {

/// A secret that the vault handed out. The bytes are wiped when the value is dropped.
#[verifier::external_body]
pub struct Secret {
    bytes: Zeroizing<Vec<u8>>,
}

/// The bytes of a secret that the guest has not read yet.
pub uninterp spec fn secret_bytes(secret: Secret) -> Seq<u8>;

impl View for Secret {
    type V = Seq<u8>;

    open spec fn view(&self) -> Seq<u8> {
        secret_bytes(*self)
    }
}

impl Secret {
    /// Puts `bytes` under protection, through `Zeroizing::new`, which holds the very value
    /// it is given.
    #[verifier::external_body]
    pub(crate) fn new(bytes: Vec<u8>) -> (secret: Secret)
        ensures
            secret_bytes(secret) == bytes@,
    {
        Secret { bytes: Zeroizing::new(bytes) }
    }

    /// The protected buffer, through `Deref::deref` of `Zeroizing`, which hands out its
    /// one field.
    #[verifier::external_body]
    pub(crate) fn bytes(&self) -> (bytes: &Vec<u8>)
        ensures
            bytes@ == secret_bytes(*self),
    {
        core::ops::Deref::deref(&self.bytes)
    }

    /// The protected buffer for writing, through `DerefMut::deref_mut` of `Zeroizing`,
    /// which hands out its one field: what the caller leaves in the buffer is what stays
    /// under protection.
    #[verifier::external_body]
    pub(crate) fn bytes_mut(&mut self) -> (bytes: &mut Vec<u8>)
        ensures
            bytes@ == secret_bytes(*old(self)),
            secret_bytes(*final(self)) == final(bytes)@,
    {
        core::ops::DerefMut::deref_mut(&mut self.bytes)
    }
}

} // verus!
