//! Host functions of the import module `sdk::context`: who sent the request.

use vstd::prelude::*;
use vstd::utf8::encode_utf8;

use super::error::HostError;
use super::utils::{
    into_usize_spec, moved, returns_count, write_constant_to_memory, write_outcome,
    written_memory, WasmUsize,
};
use super::{Context, User};

verus! {

/// The name of the sender of the running request, if there is one.
pub open spec fn sender_name<Ctx: Context>(ctx: &Ctx) -> Option<Seq<char>> {
    match ctx.spec_sender() {
        Some(user) => Some(user.spec_username()),
        None => None,
    }
}

/// The length of the sender's name in bytes, and zero where there is no sender.
pub open spec fn sender_name_length(sender: Option<Seq<char>>) -> u64 {
    match sender {
        Some(name) => encode_utf8(name).len() as u64,
        None => 0,
    }
}

/// How long the name of the sender is, in bytes; zero says that the request has no sender.
/// Nothing is changed by asking.
pub fn sender_username_length<Ctx: Context>(ctx: &Ctx) -> (length: u64)
    ensures
        length == sender_name_length(sender_name(ctx)),
        sender_name(ctx).is_some() ==> length == encode_utf8(sender_name(ctx).unwrap()).len(),
        sender_name(ctx).is_none() ==> length == 0,
{
    match ctx.sender() {
        Some(user) => user.username().as_bytes().len() as u64,
        None => 0,
    }
}

/// The part of the sender's name that a call with `offset` offers to the guest: the name
/// from byte `offset` on, and nothing where there is no sender or the name is shorter.
pub open spec fn offered_name(sender: Option<Seq<char>>, offset: nat) -> Seq<u8> {
    match sender {
        Some(name) => if offset <= encode_utf8(name).len() {
            encode_utf8(name).skip(offset as int)
        } else {
            Seq::empty()
        },
        None => Seq::empty(),
    }
}

/// Copies the offered part of the sender's name into the guest's buffer and says how many
/// bytes were written.
pub fn sender_username<Ctx: Context, Usize: WasmUsize>(
    ctx: &Ctx,
    memory: &mut [u8],
    buffer_ptr: Usize,
    buffer_length: Usize,
    offset: u64,
) -> (written: Result<Usize, HostError>)
    ensures
        into_usize_spec(offset as nat).is_err() ==> {
            &&& written == Err::<Usize, HostError>(HostError::IntegerConversion)
            &&& final(memory)@ == old(memory)@
        },
        into_usize_spec(offset as nat).is_ok() ==> {
            let offered = offered_name(sender_name(ctx), offset as nat);
            let bytes = offered.take(moved(buffer_length.as_nat(), offered.len()) as int);
            &&& returns_count(
                written,
                write_outcome(old(memory)@, bytes, buffer_ptr.as_nat(), buffer_length.as_nat()),
            )
            &&& final(memory)@ == written_memory(
                old(memory)@,
                bytes,
                buffer_ptr.as_nat(),
                buffer_length.as_nat(),
            )
        },
{
    let offset: usize = offset.into_usize()?;
    let nothing: [u8; 0] = [];
    let source: &[u8] = match ctx.sender() {
        Some(user) => {
            let name: &[u8] = user.username().as_bytes();
            if offset <= name.len() {
                vstd::slice::slice_subrange(name, offset, name.len())
            } else {
                nothing.as_slice()
            }
        },
        None => nothing.as_slice(),
    };
    write_constant_to_memory(memory, source, buffer_ptr, buffer_length)
}

} // verus!
