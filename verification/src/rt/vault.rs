//! Host functions of the import module `sdk::vault`: one secret at a time, as a streaming
//! resource.
//!
//! Fetching is done in two steps around the lookup itself, which the caller of this library
//! performs with the provider kept in the vault slot: [`begin_fetch_secret`] refuses while
//! a secret is still there and reads the identifier, [`finish_fetch_secret`] stores what
//! the provider found and issues the access ID.

use vstd::prelude::*;

use super::error::HostError;
use super::secret::{secret_bytes, Secret};
use super::utils::{
    moved, read_text_from_memory, read_text_spec, returns_count, write_from_buffer_to_memory,
    write_outcome, written_memory, WasmUsize,
};
use super::{advance_access_id, next_access_id, SdkEnv, VaultKeeper};

verus! {

impl<Vault> VaultKeeper<Vault> {
    /// What is left unread of the secret in the slot, if the slot holds one.
    pub open spec fn unread(&self) -> Option<Seq<u8>> {
        match self.secret {
            Some(secret) => Some(secret_bytes(secret)),
            None => None,
        }
    }
}

/// What the first step of a fetch gives: a refusal while a secret is in the slot, else the
/// identifier that the guest wrote at `pointer`.
pub open spec fn begin_fetch_spec<Vault>(
    env: SdkEnv<Vault>,
    memory: Seq<u8>,
    pointer: nat,
    length: nat,
) -> Result<Seq<char>, HostError> {
    if env.vault_keeper.secret.is_some() {
        Err(HostError::SecretNotDropped)
    } else {
        read_text_spec(memory, pointer, length)
    }
}

/// The first step of a fetch: refuses while the previous secret has not been dropped, else
/// reads the identifier of the secret that the guest asks for.
pub fn begin_fetch_secret<Vault, Usize: WasmUsize>(
    env: &SdkEnv<Vault>,
    memory: &[u8],
    identifier_ptr: Usize,
    identifier_length: Usize,
) -> (identifier: Result<String, HostError>)
    ensures
        match identifier {
            Ok(identifier) => begin_fetch_spec(
                *env,
                memory@,
                identifier_ptr.as_nat(),
                identifier_length.as_nat(),
            ) == Ok::<Seq<char>, HostError>(identifier@),
            Err(error) => begin_fetch_spec(
                *env,
                memory@,
                identifier_ptr.as_nat(),
                identifier_length.as_nat(),
            ) == Err::<Seq<char>, HostError>(error),
        },
{
    if env.vault_keeper.secret.is_some() {
        return Err(HostError::SecretNotDropped);
    }
    read_text_from_memory(memory, identifier_ptr, identifier_length)
}

/// How the second step of a fetch changes the environment and what it returns: a secret
/// that was found lies in the slot under a new access ID; where none was found, the slot
/// is empty, the counter stays, and the guest is handed zero.
pub open spec fn fetch_finished<Vault>(
    before: SdkEnv<Vault>,
    found: Option<Seq<u8>>,
    after: SdkEnv<Vault>,
    id: u64,
) -> bool {
    &&& after.request_reader_id == before.request_reader_id
    &&& after.request == before.request
    &&& after.response == before.response
    &&& after.network == before.network
    &&& after.vault_keeper.vault == before.vault_keeper.vault
    &&& after.vault_keeper.unread() == found
    &&& match found {
        Some(_) => id == next_access_id(before.vault_keeper.secret_id)
            && after.vault_keeper.secret_id == id,
        None => id == 0 && after.vault_keeper.secret_id == before.vault_keeper.secret_id,
    }
}

/// The second step of a fetch: stores what the provider found.
pub fn finish_fetch_secret<Vault>(env: &mut SdkEnv<Vault>, found: Option<Vec<u8>>) -> (id: u64)
    ensures
        fetch_finished(
            *old(env),
            match found {
                Some(bytes) => Some(bytes@),
                None => None,
            },
            *final(env),
            id,
        ),
        old(env).wf() ==> final(env).wf(),
{
    match found {
        Some(bytes) => {
            env.vault_keeper.secret = Some(Secret::new(bytes));
            env.vault_keeper.secret_id = advance_access_id(env.vault_keeper.secret_id);
            env.vault_keeper.secret_id
        },
        None => {
            env.vault_keeper.secret = None;
            0
        },
    }
}

/// No second secret while the first is there: after a fetch that found a secret, the next
/// fetch is refused, whatever the guest asks for.
pub proof fn lemma_one_secret_at_a_time<Vault>(
    before: SdkEnv<Vault>,
    found: Seq<u8>,
    after: SdkEnv<Vault>,
    id: u64,
    memory: Seq<u8>,
    pointer: nat,
    length: nat,
)
    requires
        fetch_finished(before, Some(found), after, id),
    ensures
        begin_fetch_spec(after, memory, pointer, length) == Err::<Seq<char>, HostError>(
            HostError::SecretNotDropped,
        ),
{
}

/// What a call on the secret finds: with the right access ID, what is left unread of it.
pub open spec fn secret_of<Vault>(env: SdkEnv<Vault>, id: u64) -> Result<Seq<u8>, HostError> {
    if id != env.vault_keeper.secret_id {
        Err(HostError::AccessIdMismatch)
    } else {
        match env.vault_keeper.unread() {
            Some(bytes) => Ok(bytes),
            None => Err(HostError::NoSecret),
        }
    }
}

/// A call with any access ID but the one issued last is refused, whatever the slot holds;
/// so is a call with the ID zero on a well-formed environment.
pub proof fn lemma_stale_secret_id<Vault>(env: SdkEnv<Vault>, id: u64)
    requires
        id != env.vault_keeper.secret_id || (env.wf() && id == 0),
    ensures
        secret_of(env, id) == Err::<Seq<u8>, HostError>(HostError::AccessIdMismatch),
{
}

/// How much of the secret is left unread.
pub fn secret_length<Vault>(env: &SdkEnv<Vault>, id: u64) -> (length: Result<u64, HostError>)
    ensures
        length == match secret_of(*env, id) {
            Ok(bytes) => Ok::<u64, HostError>(bytes.len() as u64),
            Err(error) => Err::<u64, HostError>(error),
        },
{
    if id != env.vault_keeper.secret_id {
        return Err(HostError::AccessIdMismatch);
    }
    match &env.vault_keeper.secret {
        Some(secret) => u64::from_usize(secret.bytes().len()),
        None => Err(HostError::NoSecret),
    }
}

/// Moves the next bytes of the secret into the guest's buffer and says how many they were.
/// A buffer of no bytes is served with zero before the slot is looked at.
pub fn read_secret<Vault, Usize: WasmUsize>(
    env: &mut SdkEnv<Vault>,
    memory: &mut [u8],
    id: u64,
    buffer_ptr: Usize,
    buffer_length: Usize,
) -> (read: Result<Usize, HostError>)
    ensures
        final(env).request_reader_id == old(env).request_reader_id,
        final(env).request == old(env).request,
        final(env).response == old(env).response,
        final(env).network == old(env).network,
        final(env).vault_keeper.vault == old(env).vault_keeper.vault,
        final(env).vault_keeper.secret_id == old(env).vault_keeper.secret_id,
        id != old(env).vault_keeper.secret_id ==> {
            &&& read == Err::<Usize, HostError>(HostError::AccessIdMismatch)
            &&& final(env).vault_keeper.unread() == old(env).vault_keeper.unread()
            &&& final(memory)@ == old(memory)@
        },
        id == old(env).vault_keeper.secret_id && buffer_length.as_nat() == 0 ==> {
            &&& read.is_ok() && read.unwrap().as_nat() == 0
            &&& final(env).vault_keeper.unread() == old(env).vault_keeper.unread()
            &&& final(memory)@ == old(memory)@
        },
        id == old(env).vault_keeper.secret_id && buffer_length.as_nat() != 0 ==> match old(
            env,
        ).vault_keeper.unread() {
            None => {
                &&& read == Err::<Usize, HostError>(HostError::NoSecret)
                &&& final(env).vault_keeper.unread().is_none()
                &&& final(memory)@ == old(memory)@
            },
            Some(bytes) => {
                let count = moved(buffer_length.as_nat(), bytes.len());
                &&& returns_count(
                    read,
                    write_outcome(
                        old(memory)@,
                        bytes.take(count as int),
                        buffer_ptr.as_nat(),
                        buffer_length.as_nat(),
                    ),
                )
                &&& final(memory)@ == written_memory(
                    old(memory)@,
                    bytes.take(count as int),
                    buffer_ptr.as_nat(),
                    buffer_length.as_nat(),
                )
                &&& final(env).vault_keeper.unread() == Some(bytes.skip(count as int))
            },
        },
        old(env).wf() ==> final(env).wf(),
{
    if id != env.vault_keeper.secret_id {
        return Err(HostError::AccessIdMismatch);
    }
    if buffer_length.is_zero() {
        return Ok(Usize::zero());
    }
    match &mut env.vault_keeper.secret {
        Some(secret) => write_from_buffer_to_memory(
            memory,
            secret.bytes_mut(),
            buffer_ptr,
            buffer_length,
        ),
        None => Err(HostError::NoSecret),
    }
}

/// Empties the vault slot, so that the next secret can be fetched.
pub fn drop_secret<Vault>(env: &mut SdkEnv<Vault>, id: u64) -> (done: Result<(), HostError>)
    ensures
        id != old(env).vault_keeper.secret_id ==> done == Err::<(), HostError>(
            HostError::AccessIdMismatch,
        ) && *final(env) == *old(env),
        id == old(env).vault_keeper.secret_id ==> done == Ok::<(), HostError>(()) && *final(env)
            == (SdkEnv {
            vault_keeper: VaultKeeper {
                vault: old(env).vault_keeper.vault,
                secret_id: old(env).vault_keeper.secret_id,
                secret: None,
            },
            ..*old(env)
        }),
        old(env).wf() ==> final(env).wf(),
{
    if id != env.vault_keeper.secret_id {
        return Err(HostError::AccessIdMismatch);
    }
    env.vault_keeper.secret = None;
    Ok(())
}

/// Once the secret is dropped, the next fetch is not refused on its account.
pub proof fn lemma_fetch_after_drop<Vault>(
    env: SdkEnv<Vault>,
    memory: Seq<u8>,
    pointer: nat,
    length: nat,
)
    requires
        env.vault_keeper.secret.is_none(),
    ensures
        begin_fetch_spec(env, memory, pointer, length) == read_text_spec(memory, pointer, length),
{
}

} // verus!
