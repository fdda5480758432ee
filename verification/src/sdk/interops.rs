//! Pointers as the guest passes them to the host: addresses in the guest's linear memory.
//! A pointer remembers, in its type, for how long what it points to is borrowed and
//! whether the host may write there.

use std::marker::PhantomData;
use vstd::prelude::*;

verus! {

/// The address of one value.
pub struct Pointer<'r, T, const MUTABILITY: bool> {
    pub address: usize,
    pub _lifetime: PhantomData<&'r mut T>,
}

impl<'r, T, const MUTABILITY: bool> Pointer<'r, T, MUTABILITY> {
    pub fn new(address: usize) -> (pointer: Self)
        ensures
            pointer.address == address,
    {
        Pointer { address, _lifetime: PhantomData }
    }

    pub fn shrink_lifetime<'t>(self) -> (pointer: Pointer<'t, T, MUTABILITY>)
        ensures
            pointer.address == self.address,
    {
        Pointer { address: self.address, _lifetime: PhantomData }
    }

    pub fn borrow_as_ref(&self) -> (pointer: Pointer<'_, T, false>)
        ensures
            pointer.address == self.address,
    {
        Pointer { address: self.address, _lifetime: PhantomData }
    }
}

impl<'r, T> Pointer<'r, T, true> {
    pub fn borrow_as_mut(&mut self) -> (pointer: Pointer<'_, T, true>)
        ensures
            pointer.address == old(self).address,
            final(self).address == old(self).address,
    {
        Pointer { address: self.address, _lifetime: PhantomData }
    }
}

/// The address of the first of a run of values, and how many they are.
pub struct SlicePointer<'r, T, const MUTABILITY: bool> {
    pub address: usize,
    pub length: usize,
    pub _lifetime: PhantomData<&'r mut [T]>,
}

impl<'r, T, const MUTABILITY: bool> SlicePointer<'r, T, MUTABILITY> {
    pub fn new(address: usize, length: usize) -> (pointer: Self)
        ensures
            pointer.address == address,
            pointer.length == length,
    {
        SlicePointer { address, length, _lifetime: PhantomData }
    }

    /// The same run, cut to `length` values where it is longer.
    pub fn truncate(self, length: usize) -> (pointer: Self)
        ensures
            pointer.address == self.address,
            pointer.length == if self.length <= length {
                self.length
            } else {
                length
            },
    {
        let mut pointer: Self = self;
        if length < pointer.length {
            pointer.length = length;
        }
        pointer
    }

    pub fn shrink_lifetime<'t>(self) -> (pointer: SlicePointer<'t, T, MUTABILITY>)
        ensures
            pointer.address == self.address,
            pointer.length == self.length,
    {
        SlicePointer { address: self.address, length: self.length, _lifetime: PhantomData }
    }

    pub fn borrow_as_ref(&self) -> (pointer: SlicePointer<'_, T, false>)
        ensures
            pointer.address == self.address,
            pointer.length == self.length,
    {
        SlicePointer { address: self.address, length: self.length, _lifetime: PhantomData }
    }

    /// The address of the first value of the run.
    pub fn first(self) -> (pointer: Pointer<'r, T, MUTABILITY>)
        ensures
            pointer.address == self.address,
    {
        Pointer { address: self.address, _lifetime: PhantomData }
    }
}

impl<'r, T> SlicePointer<'r, T, true> {
    pub fn borrow_as_mut(&mut self) -> (pointer: SlicePointer<'_, T, true>)
        ensures
            pointer.address == old(self).address,
            pointer.length == old(self).length,
            final(self).address == old(self).address,
            final(self).length == old(self).length,
    {
        SlicePointer { address: self.address, length: self.length, _lifetime: PhantomData }
    }
}

/// The address and the length, in bytes, of a text.
pub struct StringPointer<'r> {
    pub ptr: SlicePointer<'r, u8, false>,
}

impl<'r> StringPointer<'r> {
    pub fn new(address: usize, length: usize) -> (pointer: Self)
        ensures
            pointer.ptr.address == address,
            pointer.ptr.length == length,
    {
        StringPointer { ptr: SlicePointer::new(address, length) }
    }
}

/// What a read left in the caller's buffer: its first `read_len` bytes, or all of it where
/// it is shorter.
pub open spec fn filled(buf: Seq<u8>, read_len: nat) -> Seq<u8> {
    if read_len <= buf.len() {
        buf.take(read_len as int)
    } else {
        buf
    }
}

/// Books a read of a streaming resource: the host has written `read_len` bytes into `buf`,
/// so that many fewer are left unread. Returns the part of `buf` that was filled.
pub fn read_with_id<'r>(length: &mut u64, buf: &'r [u8], read_len: usize) -> (read: &'r [u8])
    requires
        read_len <= *old(length),
    ensures
        *final(length) == *old(length) - read_len,
        read@ == filled(buf@, read_len as nat),
{
    *length = *length - read_len as u64;
    if read_len <= buf.len() {
        vstd::slice::slice_subrange(buf, 0, read_len)
    } else {
        vstd::slice::slice_subrange(buf, 0, buf.len())
    }
}

} // verus!
