use vstd::prelude::*;

verus! {

/// Why a host function refused a call of the guest. Every such refusal is fatal for the
/// running request, but for [`HostError::Panicked`], which only says that the guest gave up.
#[derive(Debug, Clone, Copy, PartialEq, Eq, Structural)]
pub enum HostError {
    /// The access ID handed in is not the one that the host issued last.
    AccessIdMismatch,
    /// The network slot holds no response.
    NoResponse,
    /// The vault slot holds no secret.
    NoSecret,
    /// A secret was asked for while the previous one has not been dropped.
    SecretNotDropped,
    /// A request was to be sent while the response to the previous one has not been dropped.
    ResponseNotDropped,
    /// A range of guest memory lies outside the linear memory.
    MemoryAccess,
    /// An integer does not fit the width it has to be converted to.
    IntegerConversion,
    /// A byte string has not the length of the value it should hold.
    InvalidLength,
    /// A byte string that should be text is not UTF-8.
    InvalidUtf8,
    /// The method of an outbound request is no HTTP method.
    InvalidMethod,
    /// The URL of an outbound request is not an absolute URL.
    InvalidUrl,
    /// A header of an outbound request has a malformed name.
    InvalidHeaderName,
    /// A header of an outbound request has a malformed value.
    InvalidHeaderValue,
    /// Two headers of an outbound request have the same name.
    DuplicateHeader,
    /// An outbound request has more headers than the header map takes.
    TooManyHeaders,
    /// More response data was to be dropped than is left unread.
    DropTooLong,
    /// The guest panicked; its message is in the response buffer.
    Panicked,
}

impl HostError {
    /// The text that goes to the log for this refusal.
    pub fn message(&self) -> (text: &'static str)
        ensures
            text@ == match *self {
                HostError::AccessIdMismatch => "Expected access ID didn't match provided one!"@,
                HostError::NoResponse => "No response with such ID exists!"@,
                HostError::NoSecret => "No secret has been fetched!"@,
                HostError::SecretNotDropped =>
                    "Failed to fetch secret because previous secret response is not dropped."@,
                HostError::ResponseNotDropped =>
                    "There is a response to a previous request that has not been dropped!"@,
                HostError::MemoryAccess => "Couldn't access data in memory!"@,
                HostError::IntegerConversion =>
                    "Couldn't convert between WASM integer and executor's native-width integer!"@,
                HostError::InvalidLength =>
                    "Slice of length different that the expected was provided!"@,
                HostError::InvalidUtf8 => "Invalid UTF-8 encoded string passed!"@,
                HostError::InvalidMethod => "Invalid HTTP method passed!"@,
                HostError::InvalidUrl => "Invalid URL passed!"@,
                HostError::InvalidHeaderName => "Invalid header name passed!"@,
                HostError::InvalidHeaderValue => "Invalid header value passed!"@,
                HostError::DuplicateHeader =>
                    "Duplicated header name found while preparing request!"@,
                HostError::TooManyHeaders => "Too many headers found while preparing request!"@,
                HostError::DropTooLong =>
                    "Response has less unread data than expected length to drop!"@,
                HostError::Panicked => "Panicked!"@,
            },
    {
        match self {
            HostError::AccessIdMismatch => "Expected access ID didn't match provided one!",
            HostError::NoResponse => "No response with such ID exists!",
            HostError::NoSecret => "No secret has been fetched!",
            HostError::SecretNotDropped =>
                "Failed to fetch secret because previous secret response is not dropped.",
            HostError::ResponseNotDropped =>
                "There is a response to a previous request that has not been dropped!",
            HostError::MemoryAccess => "Couldn't access data in memory!",
            HostError::IntegerConversion =>
                "Couldn't convert between WASM integer and executor's native-width integer!",
            HostError::InvalidLength =>
                "Slice of length different that the expected was provided!",
            HostError::InvalidUtf8 => "Invalid UTF-8 encoded string passed!",
            HostError::InvalidMethod => "Invalid HTTP method passed!",
            HostError::InvalidUrl => "Invalid URL passed!",
            HostError::InvalidHeaderName => "Invalid header name passed!",
            HostError::InvalidHeaderValue => "Invalid header value passed!",
            HostError::DuplicateHeader =>
                "Duplicated header name found while preparing request!",
            HostError::TooManyHeaders => "Too many headers found while preparing request!",
            HostError::DropTooLong =>
                "Response has less unread data than expected length to drop!",
            HostError::Panicked => "Panicked!",
        }
    }
}

} // verus!
