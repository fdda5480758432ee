//! One request on one instance. The call of the guest's entry point lies between two
//! steps: [`begin_execute`] hands the request to the environment, [`finish_execute`]
//! collects what the guest answered.

use vstd::prelude::*;

use super::{Context, ModuleResponse, Response, SdkEnv};

verus! {

/// How the call of the guest's entry point ended.
#[derive(Debug, Clone, Copy, PartialEq, Eq, Structural)]
pub enum EntryOutcome {
    /// The entry point returned.
    Returned,
    /// The guest panicked: the host function `panic` stopped it.
    Panicked,
    /// The guest was stopped by anything else: a failure of the host.
    Trapped,
}

/// Whether the environment is ready for the next request: nothing of an earlier answer is
/// left in it.
pub fn is_clean<Ctx: Context>(ctx: &Ctx) -> (clean: bool)
    ensures
        clean == ctx.env().response.is_clean(),
{
    let env: &SdkEnv<Ctx::Vault> = ctx.sdk();
    !env.response.is_error && env.response.data.len() == 0
}

/// Hands a request to the environment: `data` becomes the body that the guest reads, and
/// `sender`, if there is one, the sender that the guest may ask for.
pub fn begin_execute<Ctx: Context>(ctx: &mut Ctx, data: Vec<u8>, sender: Option<Ctx::User>)
    requires
        old(ctx).env().response.is_clean(),
    ensures
        final(ctx).env().request@ == data@,
        final(ctx).env().request_reader_id == old(ctx).env().request_reader_id,
        final(ctx).env().response == old(ctx).env().response,
        final(ctx).env().network == old(ctx).env().network,
        final(ctx).env().vault_keeper == old(ctx).env().vault_keeper,
        final(ctx).spec_sender() == match sender {
            Some(sender) => Some(sender),
            None => old(ctx).spec_sender(),
        },
        old(ctx).env().wf() ==> final(ctx).env().wf(),
{
    ctx.sdk_mut().set_request_data(data);
    if let Some(sender) = sender {
        ctx.set_sender(sender);
    }
}

/// What the guest made of the request, by the answer it left behind.
pub open spec fn response_spec(answer: ModuleResponse) -> Response {
    if answer.is_error {
        Response::Error(answer.data)
    } else {
        Response::Success(answer.data)
    }
}

/// Collects what the guest answered. A guest that returned or panicked has answered: the
/// request and its sender are forgotten, the answer is taken out of the environment, which
/// is clean again, and returned. After a failure of the host nothing is touched and
/// nothing is returned: the instance is of no further use.
pub fn finish_execute<Ctx: Context>(ctx: &mut Ctx, outcome: EntryOutcome) -> (response: Option<
    Response,
>)
    ensures
        outcome == EntryOutcome::Trapped ==> {
            &&& response.is_none()
            &&& final(ctx).env() == old(ctx).env()
            &&& final(ctx).spec_sender() == old(ctx).spec_sender()
        },
        outcome != EntryOutcome::Trapped ==> {
            &&& response == Some(response_spec(old(ctx).env().response))
            &&& final(ctx).env().is_idle()
            &&& final(ctx).spec_sender().is_none()
            &&& final(ctx).env().request_reader_id == old(ctx).env().request_reader_id
            &&& final(ctx).env().network == old(ctx).env().network
            &&& final(ctx).env().vault_keeper == old(ctx).env().vault_keeper
        },
        old(ctx).env().wf() ==> final(ctx).env().wf(),
{
    if let EntryOutcome::Trapped = outcome {
        return None;
    }
    ctx.sdk_mut().clear_request_data();
    ctx.clear_sender();
    let mut answer: ModuleResponse = ModuleResponse::new();
    core::mem::swap(&mut ctx.sdk_mut().response, &mut answer);
    Some(
        if answer.is_error {
            Response::Error(answer.data)
        } else {
            Response::Success(answer.data)
        },
    )
}

} // verus!
