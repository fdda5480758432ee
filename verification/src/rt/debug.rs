//! Host function of the import module `sdk::debug`.

use vstd::prelude::*;

use super::error::HostError;
use super::utils::{read_text_from_memory, read_text_spec, WasmUsize};

verus! {

/// Reads the line that the guest wants on the host's log.
pub fn debug_str<Usize: WasmUsize>(memory: &[u8], buffer_ptr: Usize, buffer_length: Usize) -> (line:
    Result<String, HostError>)
    ensures
        match line {
            Ok(line) => read_text_spec(memory@, buffer_ptr.as_nat(), buffer_length.as_nat())
                == Ok::<Seq<char>, HostError>(line@),
            Err(error) => read_text_spec(memory@, buffer_ptr.as_nat(), buffer_length.as_nat())
                == Err::<Seq<char>, HostError>(error),
        },
{
    read_text_from_memory(memory, buffer_ptr, buffer_length)
}

} // verus!
