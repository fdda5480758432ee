//! The sender of the request, as the guest asks for it.

use vstd::prelude::*;

verus! {

/// The guest's handle on the name of the sender.
pub struct User {
    pub offset: u64,
    pub length: u64,
}

impl User {
    /// What was read never goes beyond the name.
    pub open spec fn wf(&self) -> bool {
        self.offset <= self.length
    }

    /// How much of the name is left unread.
    pub open spec fn unread(&self) -> nat {
        (self.length - self.offset) as nat
    }

    /// The handle for what the host returned as the length of the sender's name. Zero
    /// gives no handle: the request has no sender.
    pub fn new(length: u64) -> (user: Option<Self>)
        ensures
            user == if length == 0 {
                None::<Self>
            } else {
                Some(User { offset: 0, length })
            },
            user.is_some() ==> user.unwrap().wf(),
    {
        if length == 0 {
            None
        } else {
            Some(Self { offset: 0, length })
        }
    }

    /// The length of the sender's name. Reading does not change it.
    pub fn username_length(&self) -> (length: u64)
        ensures
            length == self.length,
    {
        self.length
    }

    /// Whether a read into a buffer of `buf_len` bytes asks the host at all: there has to
    /// be something beyond the offset, and room in the buffer.
    pub fn wants_read(&self, buf_len: usize) -> (wanted: bool)
        ensures
            wanted == (self.offset < self.length && buf_len != 0),
    {
        self.offset < self.length && buf_len != 0
    }

    /// Books a read: the host has written `read_length` bytes of the name, from the offset
    /// on, into `buf`, and the offset moves on by as much. Returns the part of `buf` that
    /// was filled. Where the host was not asked, `read_length` is zero. Reads in a row
    /// hand out the name in order, once, and end when the offset has reached the length.
    pub fn read<'r>(&mut self, buf: &'r [u8], read_length: usize) -> (read: &'r [u8])
        requires
            old(self).wf(),
            read_length <= buf@.len(),
            read_length <= old(self).unread(),
        ensures
            final(self).offset == old(self).offset + read_length,
            final(self).length == old(self).length,
            final(self).wf(),
            final(self).unread() == old(self).unread() - read_length,
            read@ == buf@.take(read_length as int),
    {
        self.offset = self.offset + read_length as u64;
        vstd::slice::slice_subrange(buf, 0, read_length)
    }
}

} // verus!
