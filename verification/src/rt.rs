//! Host side of the SDK bridge: the environment that one module instance lives in, and the
//! host functions that the guest calls through it.
//!
//! Every streaming resource (the request body, the response of an outbound request, a secret
//! of the vault) is a slot that holds at most one value, next to a counter. The counter is
//! the access ID that the guest was handed last; a host function serves a call only if the
//! guest shows that ID.

use vstd::prelude::*;

pub mod context;
pub mod debug;
pub mod error;
pub mod instance;
pub mod io;
pub mod module;
pub mod net;
pub mod panic;
pub mod secret;
pub mod utils;
pub mod vault;

use secret::Secret;

verus! {

/// The first access ID that a counter ever holds. Zero stands for "nothing issued".
pub const INIT_ID: u64 = 1;

/// The access ID that follows `id`: one more, and `INIT_ID` after the largest.
pub open spec fn next_access_id(id: u64) -> u64 {
    if id == u64::MAX {
        INIT_ID
    } else {
        (id + 1) as u64
    }
}

/// Steps a counter to the access ID that follows.
pub fn advance_access_id(id: u64) -> (next: u64)
    ensures
        next == next_access_id(id),
        next != 0,
{
    match id.checked_add(1) {
        Some(next) => next,
        None => INIT_ID,
    }
}

/// Each new access ID is one more than the last, but at the wrap-around, where it is
/// `INIT_ID`; it is never zero and never the ID it follows.
pub proof fn lemma_access_ids_increase(id: u64)
    ensures
        next_access_id(id) != 0,
        next_access_id(id) != id,
        id != u64::MAX ==> next_access_id(id) > id,
        id == u64::MAX ==> next_access_id(id) == INIT_ID,
{
}

/// The authenticated caller of a request, as the guest may ask for it.
pub trait User {
    spec fn spec_username(&self) -> Seq<char>;

    fn username(&self) -> (name: &str)
        ensures
            name@ == self.spec_username(),
    ;
}

/// What the guest has answered so far.
#[derive(Debug, PartialEq, Eq)]
pub struct ModuleResponse {
    pub is_error: bool,
    pub data: Vec<u8>,
}

impl ModuleResponse {
    /// An empty answer that is no error.
    pub fn new() -> (response: Self)
        ensures
            response.is_clean(),
    {
        Self { is_error: false, data: Vec::new() }
    }

    /// Whether nothing has been answered yet.
    pub open spec fn is_clean(&self) -> bool {
        !self.is_error && self.data@.len() == 0
    }
}

impl Default for ModuleResponse {
    /// An empty answer that is no error.
    fn default() -> (response: Self)
        ensures
            response.is_clean(),
    {
        Self::new()
    }
}

/// The response to an outbound request: its status and what is left unread of its body.
#[derive(Debug, PartialEq, Eq)]
pub struct NetworkResponse {
    pub status_code: u16,
    pub data: Vec<u8>,
}

impl NetworkResponse {
    pub fn new(status_code: u16, data: Vec<u8>) -> (response: Self)
        ensures
            response.status_code == status_code,
            response.data == data,
    {
        Self { status_code, data }
    }

    pub fn status_code(&self) -> (status_code: u16)
        ensures
            status_code == self.status_code,
    {
        self.status_code
    }

    pub fn data(&self) -> (data: &Vec<u8>)
        ensures
            *data == self.data,
    {
        &self.data
    }

    pub fn data_mut(&mut self) -> (data: &mut Vec<u8>)
        ensures
            *data == old(self).data,
            final(self).data == *final(data),
            final(self).status_code == old(self).status_code,
    {
        &mut self.data
    }
}

impl Default for NetworkResponse {
    /// A response with the status zero and no body.
    fn default() -> (response: Self)
        ensures
            response.status_code == 0,
            response.data@.len() == 0,
    {
        Self { status_code: 0, data: Vec::new() }
    }
}

/// The network slot: the response to the last outbound request, and its access ID.
#[derive(Debug)]
pub struct Network {
    pub response_id: u64,
    pub response: Option<NetworkResponse>,
}

impl Network {
    pub fn new() -> (network: Self)
        ensures
            network.response_id == INIT_ID,
            network.response.is_none(),
    {
        Self { response_id: INIT_ID, response: None }
    }
}

/// The vault slot: the provider of secrets, the secret fetched last, and its access ID.
pub struct VaultKeeper<Vault> {
    pub vault: Vault,
    pub secret_id: u64,
    pub secret: Option<Secret>,
}

impl<Vault> VaultKeeper<Vault> {
    pub fn new(vault: Vault) -> (keeper: Self)
        ensures
            keeper.vault == vault,
            keeper.secret_id == INIT_ID,
            keeper.secret.is_none(),
    {
        Self { vault, secret_id: INIT_ID, secret: None }
    }
}

/// The caller of a request, known by name.
#[derive(Debug, Clone, PartialEq, Eq)]
pub struct SdkUser {
    pub username: String,
}

impl SdkUser {
    pub fn new(username: String) -> (user: Self)
        ensures
            user.username == username,
    {
        Self { username }
    }
}

impl User for SdkUser {
    open spec fn spec_username(&self) -> Seq<char> {
        self.username@
    }

    fn username(&self) -> (name: &str) {
        self.username.as_str()
    }
}

/// The state that the host keeps for one module instance.
pub struct SdkEnv<Vault> {
    pub request_reader_id: u64,
    pub request: Vec<u8>,
    pub response: ModuleResponse,
    pub network: Network,
    pub vault_keeper: VaultKeeper<Vault>,
}

impl<Vault> SdkEnv<Vault> {
    /// No counter holds zero: zero is what the guest reads as "nothing issued".
    pub open spec fn wf(&self) -> bool {
        &&& self.request_reader_id != 0
        &&& self.network.response_id != 0
        &&& self.vault_keeper.secret_id != 0
    }

    /// Whether the environment is as a fresh one, but for its counters and its vault: no
    /// request waits, and nothing has been answered.
    pub open spec fn is_idle(&self) -> bool {
        self.request@.len() == 0 && self.response.is_clean()
    }

    pub fn new(vault: Vault) -> (env: Self)
        ensures
            env.wf(),
            env.is_idle(),
            env.request_reader_id == INIT_ID,
            env.network.response_id == INIT_ID,
            env.network.response.is_none(),
            env.vault_keeper.vault == vault,
            env.vault_keeper.secret_id == INIT_ID,
            env.vault_keeper.secret.is_none(),
    {
        Self {
            request_reader_id: INIT_ID,
            request: Vec::new(),
            response: ModuleResponse::new(),
            network: Network::new(),
            vault_keeper: VaultKeeper::new(vault),
        }
    }

    /// Makes `data` the body of the request that the guest reads next.
    pub fn set_request_data(&mut self, data: Vec<u8>)
        ensures
            final(self).request@ == data@,
            final(self).request_reader_id == old(self).request_reader_id,
            final(self).response == old(self).response,
            final(self).network == old(self).network,
            final(self).vault_keeper == old(self).vault_keeper,
            old(self).wf() ==> final(self).wf(),
    {
        self.request = data;
        shrink_to_fit(&mut self.request);
    }

    pub fn clear_request_data(&mut self)
        ensures
            final(self).request@.len() == 0,
            final(self).request_reader_id == old(self).request_reader_id,
            final(self).response == old(self).response,
            final(self).network == old(self).network,
            final(self).vault_keeper == old(self).vault_keeper,
            old(self).wf() ==> final(self).wf(),
    {
        self.request = Vec::new();
    }
}

/// Gives back what the buffer has allocated beyond its length, through
/// `Vec::shrink_to_fit`, which leaves the bytes as they are.
#[verifier::external_body]
fn shrink_to_fit(buffer: &mut Vec<u8>)
    ensures
        final(buffer)@ == old(buffer)@,
{
    buffer.shrink_to_fit();
}

/// What the runtime needs of the state behind an instance: the SDK environment, and the
/// sender of the running request.
pub trait Context: Sized {
    type ConstructorContext;

    type Vault;

    type User: User;

    spec fn env(&self) -> SdkEnv<Self::Vault>;

    spec fn spec_sender(&self) -> Option<Self::User>;

    fn with_vault_and_context(vault: Self::Vault, context: Self::ConstructorContext) -> (ctx:
        Self)
        ensures
            ctx.env().wf(),
            ctx.env().is_idle(),
            ctx.env().vault_keeper.vault == vault,
            ctx.spec_sender().is_none(),
    ;

    fn sdk(&self) -> (env: &SdkEnv<Self::Vault>)
        ensures
            *env == self.env(),
    ;

    fn sdk_mut(&mut self) -> (env: &mut SdkEnv<Self::Vault>)
        ensures
            *env == old(self).env(),
            final(self).env() == *final(env),
            final(self).spec_sender() == old(self).spec_sender(),
    ;

    fn sender(&self) -> (sender: Option<&Self::User>)
        ensures
            sender == match self.spec_sender() {
                Some(user) => Some(&user),
                None => None,
            },
    ;

    fn set_sender(&mut self, sender: Self::User)
        ensures
            final(self).spec_sender() == Some(sender),
            final(self).env() == old(self).env(),
    ;

    fn clear_sender(&mut self)
        ensures
            final(self).spec_sender().is_none(),
            final(self).env() == old(self).env(),
    ;
}

/// The state behind an instance, as the runtime itself provides it.
pub struct SdkContext<Vault> {
    pub env: SdkEnv<Vault>,
    pub sender: Option<SdkUser>,
}

impl<Vault> SdkContext<Vault> {
    pub fn new(env: SdkEnv<Vault>) -> (ctx: Self)
        ensures
            ctx.env == env,
            ctx.sender.is_none(),
    {
        Self { env, sender: None }
    }
}

impl<Vault> Context for SdkContext<Vault> {
    type ConstructorContext = ();

    type Vault = Vault;

    type User = SdkUser;

    open spec fn env(&self) -> SdkEnv<Vault> {
        self.env
    }

    open spec fn spec_sender(&self) -> Option<SdkUser> {
        self.sender
    }

    fn with_vault_and_context(vault: Vault, context: ()) -> (ctx: Self) {
        Self::new(SdkEnv::new(vault))
    }

    fn sdk(&self) -> (env: &SdkEnv<Vault>) {
        &self.env
    }

    fn sdk_mut(&mut self) -> (env: &mut SdkEnv<Vault>) {
        &mut self.env
    }

    fn sender(&self) -> (sender: Option<&SdkUser>) {
        self.sender.as_ref()
    }

    fn set_sender(&mut self, sender: SdkUser) {
        self.sender = Some(sender);
    }

    fn clear_sender(&mut self) {
        self.sender = None;
    }
}

/// What a module made of a request.
#[derive(Debug, Clone, PartialEq, Eq)]
pub enum Response {
    Success(Vec<u8>),
    Error(Vec<u8>),
}

} // verus!
