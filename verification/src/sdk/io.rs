//! The body of the request, as the guest reads it, and the response, as the guest writes
//! it.

use vstd::prelude::*;

use super::interops::{filled, read_with_id};

verus! {

/// The guest's handle on the body of the request.
pub struct RequestData {
    pub id: u64,
    pub length: u64,
}

impl RequestData {
    /// A handle never holds the ID zero, which stands for "nothing issued".
    pub open spec fn wf(&self) -> bool {
        self.id != 0
    }

    /// The handle for the access ID that the host issued, with the length that the host
    /// told for it. The ID zero gives no handle.
    pub fn new(id: u64, length: u64) -> (data: Option<Self>)
        ensures
            data == if id == 0 {
                None::<Self>
            } else {
                Some(RequestData { id, length })
            },
    {
        if id == 0 {
            None
        } else {
            Some(Self { id, length })
        }
    }

    /// How many bytes are left unread.
    pub fn len(&self) -> (length: u64)
        ensures
            length == self.length,
    {
        self.length
    }

    pub fn is_empty(&self) -> (empty: bool)
        ensures
            empty == (self.length == 0),
    {
        self.length == 0
    }

    /// Books a read: the host has written `read_len` bytes of the body into `buf`.
    /// Returns the part of `buf` that was filled.
    pub fn read<'r>(&mut self, buf: &'r [u8], read_len: usize) -> (read: &'r [u8])
        requires
            read_len <= old(self).length,
        ensures
            final(self).id == old(self).id,
            final(self).length == old(self).length - read_len,
            read@ == filled(buf@, read_len as nat),
    {
        read_with_id(&mut self.length, buf, read_len)
    }
}

/// The response of the guest. It has no state on the guest's side: what the guest writes
/// goes to the host at once.
#[derive(Debug, Clone, Copy, PartialEq, Eq, Structural)]
pub struct Response;

impl Default for Response {
    fn default() -> (response: Self)
        ensures
            response == Response,
    {
        Response
    }
}

} // verus!
