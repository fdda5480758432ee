//! Host function of the import module `sdk::panic`.

use vstd::prelude::*;

use super::error::HostError;
use super::utils::{read_from_memory_to_buffer, read_spec, WasmUsize};
use super::{ModuleResponse, SdkEnv};

verus! {

/// Takes the guest's panic message as the whole response, marks the response as an error,
/// and stops the guest with `HostError::Panicked`. Where the message cannot be read, the
/// response stays as it is and the guest stops with that failure.
pub fn panic<Vault, Usize: WasmUsize>(
    env: &mut SdkEnv<Vault>,
    memory: &[u8],
    buffer_ptr: Usize,
    buffer_length: Usize,
) -> (stopped: Result<(), HostError>)
    ensures
        match read_spec(memory@, buffer_ptr.as_nat(), buffer_length.as_nat()) {
            Ok(message) => {
                &&& stopped == Err::<(), HostError>(HostError::Panicked)
                &&& final(env).response.is_error
                &&& final(env).response.data@ == message
            },
            Err(error) => {
                &&& stopped == Err::<(), HostError>(error)
                &&& final(env).response == old(env).response
            },
        },
        final(env).request_reader_id == old(env).request_reader_id,
        final(env).request == old(env).request,
        final(env).network == old(env).network,
        final(env).vault_keeper == old(env).vault_keeper,
        old(env).wf() ==> final(env).wf(),
{
    let message: Vec<u8> = read_from_memory_to_buffer(memory, buffer_ptr, buffer_length)?;
    env.response = ModuleResponse { is_error: true, data: message };
    Err(HostError::Panicked)
}

} // verus!
