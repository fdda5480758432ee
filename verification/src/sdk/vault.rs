//! The guest's handle on a secret of the vault.

use vstd::prelude::*;

use super::interops::{filled, read_with_id};

verus! {

/// The guest's handle on a secret.
pub struct Secret {
    pub id: u64,
    pub length: u64,
}

impl Secret {
    /// A handle never holds the ID zero, which stands for "no such secret".
    pub open spec fn wf(&self) -> bool {
        self.id != 0
    }

    /// The handle on the secret that the host issued the access ID `id` for, with the
    /// length that the host told for it. The ID zero gives no handle: there is no secret
    /// with the identifier that was asked for.
    pub fn fetch_secret(id: u64, length: u64) -> (secret: Option<Self>)
        ensures
            secret == if id == 0 {
                None::<Self>
            } else {
                Some(Secret { id, length })
            },
    {
        if id == 0 {
            None
        } else {
            Some(Self { id, length })
        }
    }

    /// How many bytes are left unread.
    pub fn unread_length(&self) -> (length: u64)
        ensures
            length == self.length,
    {
        self.length
    }

    pub fn is_empty(&self) -> (empty: bool)
        ensures
            empty == (self.length == 0),
    {
        self.length == 0
    }

    /// Books a read: the host has written `read_len` bytes of the secret into `buf`.
    /// Returns the part of `buf` that was filled.
    pub fn read<'r>(&mut self, buf: &'r [u8], read_len: usize) -> (read: &'r [u8])
        requires
            read_len <= old(self).length,
        ensures
            final(self).id == old(self).id,
            final(self).length == old(self).length - read_len,
            read@ == filled(buf@, read_len as nat),
    {
        read_with_id(&mut self.length, buf, read_len)
    }
}

} // verus!
