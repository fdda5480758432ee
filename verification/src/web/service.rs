//! How a request to a module is answered over HTTP.

use vstd::prelude::*;

use crate::rt::Response;

pub mod modules;
pub mod workers;

verus! {

/// How the exchange with the worker of a module ended.
#[derive(Debug, Clone, PartialEq, Eq)]
pub enum Outcome {
    /// The request could not be handed to the worker: its channel is closed.
    WorkerGone,
    /// The worker took the request and never answered: the reply channel was closed.
    NoReply,
    /// The host failed; the text describes the failure.
    Failed(Vec<u8>),
    /// The module answered.
    Replied(Response),
}

/// An HTTP response: the status and the body.
#[derive(Debug, Clone, PartialEq, Eq)]
pub struct Reply {
    pub status: u16,
    pub body: Vec<u8>,
}

pub const OK: u16 = 200;

pub const UNPROCESSABLE_ENTITY: u16 = 422;

pub const INTERNAL_SERVER_ERROR: u16 = 500;

/// The status that an outcome is answered with: an answer of the module is a success, an
/// error of the guest is the client's to handle, and everything else is a failure of the
/// server.
pub open spec fn status_spec(outcome: Outcome) -> u16 {
    match outcome {
        Outcome::Replied(Response::Success(_)) => OK,
        Outcome::Replied(Response::Error(_)) => UNPROCESSABLE_ENTITY,
        _ => INTERNAL_SERVER_ERROR,
    }
}

/// The body that an outcome is answered with: what the module answered, or a description
/// of the failure.
pub open spec fn body_spec(outcome: Outcome) -> Seq<u8> {
    match outcome {
        Outcome::Replied(Response::Success(body)) => body@,
        Outcome::Replied(Response::Error(body)) => body@,
        Outcome::Failed(text) => text@,
        Outcome::NoReply => "Failed to receive response from handler!"@.map_values(
            |c: char| c as u8,
        ),
        Outcome::WorkerGone => "Failed to send request to handler! Channel closed!"@.map_values(
            |c: char| c as u8,
        ),
    }
}

/// The bytes of a text of the server.
fn text_bytes(text: &'static str) -> (bytes: Vec<u8>)
    requires
        text.is_ascii(),
    ensures
        bytes@ == text@.map_values(|c: char| c as u8),
{
    broadcast use vstd::string::is_ascii_spec_bytes;

    let bytes: Vec<u8> = vstd::slice::slice_to_vec(text.as_bytes());
    bytes
}

/// Turns the outcome of a request into the HTTP response.
pub fn request_handler(outcome: Outcome) -> (reply: Reply)
    ensures
        reply.status == status_spec(outcome),
        reply.body@ == body_spec(outcome),
{
    match outcome {
        Outcome::Replied(Response::Success(body)) => Reply { status: OK, body },
        Outcome::Replied(Response::Error(body)) => Reply { status: UNPROCESSABLE_ENTITY, body },
        Outcome::Failed(text) => Reply { status: INTERNAL_SERVER_ERROR, body: text },
        Outcome::NoReply => {
            proof {
                reveal_strlit("Failed to receive response from handler!");
            }
            Reply {
                status: INTERNAL_SERVER_ERROR,
                body: text_bytes("Failed to receive response from handler!"),
            }
        },
        Outcome::WorkerGone => {
            proof {
                reveal_strlit("Failed to send request to handler! Channel closed!");
            }
            Reply {
                status: INTERNAL_SERVER_ERROR,
                body: text_bytes("Failed to send request to handler! Channel closed!"),
            }
        },
    }
}

} // verus!
