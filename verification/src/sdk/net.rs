//! Outbound requests, as the guest describes them to the host, and the guest's handle on
//! the response.

use vstd::prelude::*;

use super::interops::{filled, read_with_id, SlicePointer, StringPointer};

verus! {

/// One header of an outbound request.
pub struct Header<'r> {
    pub name: StringPointer<'r>,
    pub value: StringPointer<'r>,
}

/// An outbound request.
pub struct Request<'r> {
    pub method: StringPointer<'r>,
    pub url: StringPointer<'r>,
    pub headers: SlicePointer<'r, Header<'r>, false>,
    pub body: SlicePointer<'r, u8, false>,
}

/// The guest's handle on the response to an outbound request.
pub struct Response {
    pub id: u64,
    pub length: u64,
}

/// The handle on the response that the host issued the access ID `id` for, with the length
/// that the host told for it. The ID zero gives no handle.
pub fn send_request(id: u64, length: u64) -> (response: Option<Response>)
    ensures
        response == if id == 0 {
            None::<Response>
        } else {
            Some(Response { id, length })
        },
{
    if id == 0 {
        None
    } else {
        Some(Response { id, length })
    }
}

impl Response {
    /// A handle never holds the ID zero, which stands for "nothing issued".
    pub open spec fn wf(&self) -> bool {
        self.id != 0
    }

    /// The status of the response, from what the host returned for it.
    pub fn status_code(&self, raw: u32) -> (status: u16)
        requires
            raw <= u16::MAX,
        ensures
            status == raw,
    {
        raw as u16
    }

    /// How many bytes are left unread.
    pub fn unread_length(&self) -> (length: u64)
        ensures
            length == self.length,
    {
        self.length
    }

    pub fn is_empty(&self) -> (empty: bool)
        ensures
            empty == (self.length == 0),
    {
        self.length == 0
    }

    /// Books a read: the host has written `read_len` bytes of the response into `buf`.
    /// Returns the part of `buf` that was filled.
    pub fn read<'r>(&mut self, buf: &'r [u8], read_len: usize) -> (read: &'r [u8])
        requires
            read_len <= old(self).length,
        ensures
            final(self).id == old(self).id,
            final(self).length == old(self).length - read_len,
            read@ == filled(buf@, read_len as nat),
    {
        read_with_id(&mut self.length, buf, read_len)
    }

    /// Skips over `length` bytes of the response, or over all that is left where that is
    /// less. Returns how many bytes the host is to drop.
    pub fn skip_over(&mut self, length: u64) -> (dropped: u64)
        ensures
            dropped == if old(self).length <= length {
                old(self).length
            } else {
                length
            },
            final(self).length == old(self).length - dropped,
            final(self).id == old(self).id,
    {
        let dropped: u64 = if self.length <= length {
            self.length
        } else {
            length
        };
        self.length = self.length - dropped;
        dropped
    }
}

} // verus!
