//! Host functions of the import module `sdk::io`: the body of the request, which the guest
//! reads in pieces, and the response, which the guest writes in pieces.

use vstd::prelude::*;

use super::error::HostError;
use super::utils::{
    moved, read_from_memory_to_buffer, read_spec, returns_count, write_from_buffer_to_memory,
    write_outcome, written_memory, WasmUsize,
};
use super::{advance_access_id, next_access_id, ModuleResponse, SdkEnv};

verus! {

/// Issues a new access ID for the body of the request.
pub fn receive_request_data_id<Vault>(env: &mut SdkEnv<Vault>) -> (id: u64)
    ensures
        id == next_access_id(old(env).request_reader_id),
        id != 0,
        *final(env) == (SdkEnv { request_reader_id: id, ..*old(env) }),
        old(env).wf() ==> final(env).wf(),
{
    env.request_reader_id = advance_access_id(env.request_reader_id);
    env.request_reader_id
}

/// How much of the body of the request is left unread.
pub fn request_data_length<Vault>(env: &SdkEnv<Vault>, id: u64) -> (length: Result<
    u64,
    HostError,
>)
    ensures
        length == if id == env.request_reader_id {
            Ok::<u64, HostError>(env.request@.len() as u64)
        } else {
            Err::<u64, HostError>(HostError::AccessIdMismatch)
        },
{
    if id != env.request_reader_id {
        return Err(HostError::AccessIdMismatch);
    }
    u64::from_usize(env.request.len())
}

/// Moves the next bytes of the body of the request into the guest's buffer and says how
/// many they were. With a stale access ID nothing is touched.
pub fn read_request_data<Vault, Usize: WasmUsize>(
    env: &mut SdkEnv<Vault>,
    memory: &mut [u8],
    id: u64,
    buffer_ptr: Usize,
    buffer_length: Usize,
) -> (read: Result<Usize, HostError>)
    ensures
        id != old(env).request_reader_id ==> {
            &&& read == Err::<Usize, HostError>(HostError::AccessIdMismatch)
            &&& *final(env) == *old(env)
            &&& final(memory)@ == old(memory)@
        },
        id == old(env).request_reader_id ==> {
            let count = moved(buffer_length.as_nat(), old(env).request@.len());
            &&& returns_count(
                read,
                write_outcome(
                    old(memory)@,
                    old(env).request@.take(count as int),
                    buffer_ptr.as_nat(),
                    buffer_length.as_nat(),
                ),
            )
            &&& final(memory)@ == written_memory(
                old(memory)@,
                old(env).request@.take(count as int),
                buffer_ptr.as_nat(),
                buffer_length.as_nat(),
            )
            &&& final(env).request@ == old(env).request@.skip(count as int)
            &&& final(env).request_reader_id == old(env).request_reader_id
            &&& final(env).response == old(env).response
            &&& final(env).network == old(env).network
            &&& final(env).vault_keeper == old(env).vault_keeper
        },
        old(env).wf() ==> final(env).wf(),
{
    if id != env.request_reader_id {
        return Err(HostError::AccessIdMismatch);
    }
    write_from_buffer_to_memory(memory, &mut env.request, buffer_ptr, buffer_length)
}

/// Marks the response as an error of the guest.
pub fn set_response_is_error<Vault>(env: &mut SdkEnv<Vault>, id: u64) -> (done: Result<
    (),
    HostError,
>)
    ensures
        id != old(env).request_reader_id ==> done == Err::<(), HostError>(
            HostError::AccessIdMismatch,
        ) && *final(env) == *old(env),
        id == old(env).request_reader_id ==> done == Ok::<(), HostError>(()) && *final(env) == (
        SdkEnv {
            response: ModuleResponse { is_error: true, data: old(env).response.data },
            ..*old(env)
        }),
        old(env).wf() ==> final(env).wf(),
{
    if id != env.request_reader_id {
        return Err(HostError::AccessIdMismatch);
    }
    env.response.is_error = true;
    Ok(())
}

/// Appends the bytes of the guest's buffer to the response.
pub fn write_response_data<Vault, Usize: WasmUsize>(
    env: &mut SdkEnv<Vault>,
    memory: &[u8],
    buffer_ptr: Usize,
    buffer_length: Usize,
) -> (done: Result<(), HostError>)
    ensures
        match read_spec(memory@, buffer_ptr.as_nat(), buffer_length.as_nat()) {
            Ok(bytes) => {
                &&& done == Ok::<(), HostError>(())
                &&& final(env).response.data@ == old(env).response.data@ + bytes
                &&& final(env).response.is_error == old(env).response.is_error
            },
            Err(error) => {
                &&& done == Err::<(), HostError>(error)
                &&& final(env).response == old(env).response
            },
        },
        final(env).request_reader_id == old(env).request_reader_id,
        final(env).request == old(env).request,
        final(env).network == old(env).network,
        final(env).vault_keeper == old(env).vault_keeper,
        old(env).wf() ==> final(env).wf(),
{
    let mut buffer: Vec<u8> = read_from_memory_to_buffer(memory, buffer_ptr, buffer_length)?;
    env.response.data.append(&mut buffer);
    Ok(())
}

} // verus!
