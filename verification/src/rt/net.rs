//! Host functions of the import module `sdk::net`: one outbound HTTP request at a time, and
//! its response as a streaming resource.
//!
//! Sending is done in two steps around the exchange itself, which the caller of this
//! library performs: [`begin_send_request`] refuses while a response is still there and
//! decodes and checks what the guest asked for, [`finish_send_request`] stores what came
//! back and issues the access ID.

use reqwest::header::{HeaderMap, HeaderName, HeaderValue};
use vstd::prelude::*;

use super::error::HostError;
use super::utils::{
    into_usize_spec, lemma_elements_count, moved, read_array_spec, read_from_memory_to_buffer, read_spec,
    read_text_from_memory, read_text_spec, read_value_array_from_memory,
    read_value_from_memory, read_value_spec, returns_count, write_from_buffer_to_memory,
    write_outcome, written_memory, RawValue, SlicePointer, WasmUsize,
};
use super::{advance_access_id, next_access_id, Network, NetworkResponse, SdkEnv};

verus! {

/// One header of an outbound request, as the guest lays it out: where its name lies, then
/// where its value lies.
#[derive(Debug, PartialEq, Eq)]
pub struct HeaderData<Usize: WasmUsize> {
    pub name: SlicePointer<Usize>,
    pub value: SlicePointer<Usize>,
}

impl<Usize: WasmUsize> RawValue for HeaderData<Usize> {
    open spec fn spec_size() -> nat {
        4 * Usize::spec_size()
    }

    open spec fn decoded(bytes: Seq<u8>) -> Self {
        let size = SlicePointer::<Usize>::spec_size() as int;
        HeaderData {
            name: SlicePointer::decoded(bytes.subrange(0, size)),
            value: SlicePointer::decoded(bytes.subrange(size, 2 * size)),
        }
    }

    fn size() -> (size: usize) {
        proof {
            Usize::lemma_width();
        }
        4 * Usize::size()
    }

    fn from_wasm_bytes(bytes: &[u8]) -> (value: Result<Self, HostError>) {
        proof {
            Usize::lemma_width();
        }
        let size: usize = SlicePointer::<Usize>::size();
        if bytes.len() != 2 * size {
            return Err(HostError::InvalidLength);
        }
        let name: SlicePointer<Usize> = SlicePointer::from_wasm_bytes(
            vstd::slice::slice_subrange(bytes, 0, size),
        )?;
        let value: SlicePointer<Usize> = SlicePointer::from_wasm_bytes(
            vstd::slice::slice_subrange(bytes, size, 2 * size),
        )?;
        Ok(HeaderData { name, value })
    }
}

/// An outbound request, as the guest lays it out: where the method lies, the URL, the
/// array of headers, and the body.
#[derive(Debug, PartialEq, Eq)]
pub struct RequestData<Usize: WasmUsize> {
    pub method: SlicePointer<Usize>,
    pub url: SlicePointer<Usize>,
    pub headers: SlicePointer<Usize>,
    pub body: SlicePointer<Usize>,
}

impl<Usize: WasmUsize> RawValue for RequestData<Usize> {
    open spec fn spec_size() -> nat {
        8 * Usize::spec_size()
    }

    open spec fn decoded(bytes: Seq<u8>) -> Self {
        let size = SlicePointer::<Usize>::spec_size() as int;
        RequestData {
            method: SlicePointer::decoded(bytes.subrange(0, size)),
            url: SlicePointer::decoded(bytes.subrange(size, 2 * size)),
            headers: SlicePointer::decoded(bytes.subrange(2 * size, 3 * size)),
            body: SlicePointer::decoded(bytes.subrange(3 * size, 4 * size)),
        }
    }

    fn size() -> (size: usize) {
        proof {
            Usize::lemma_width();
        }
        8 * Usize::size()
    }

    fn from_wasm_bytes(bytes: &[u8]) -> (value: Result<Self, HostError>) {
        proof {
            Usize::lemma_width();
        }
        let size: usize = SlicePointer::<Usize>::size();
        if bytes.len() != 4 * size {
            return Err(HostError::InvalidLength);
        }
        let method: SlicePointer<Usize> = SlicePointer::from_wasm_bytes(
            vstd::slice::slice_subrange(bytes, 0, size),
        )?;
        let url: SlicePointer<Usize> = SlicePointer::from_wasm_bytes(
            vstd::slice::slice_subrange(bytes, size, 2 * size),
        )?;
        let headers: SlicePointer<Usize> = SlicePointer::from_wasm_bytes(
            vstd::slice::slice_subrange(bytes, 2 * size, 3 * size),
        )?;
        let body: SlicePointer<Usize> = SlicePointer::from_wasm_bytes(
            vstd::slice::slice_subrange(bytes, 3 * size, 4 * size),
        )?;
        Ok(RequestData { method, url, headers, body })
    }
}

/// Whether a byte string is an HTTP method, a standard one or an extension.
pub uninterp spec fn is_http_method(bytes: Seq<u8>) -> bool;

/// Whether a text is an absolute URL.
pub uninterp spec fn is_absolute_url(text: Seq<char>) -> bool;

/// The name of the header that a byte string spells, in lower case, if it spells one.
pub uninterp spec fn header_name(bytes: Seq<u8>) -> Option<Seq<u8>>;

/// Whether a byte may stand in the value of a header: a tab, or anything from the space on
/// but the delete character.
pub open spec fn is_header_value_byte(byte: u8) -> bool {
    byte >= 32 && byte != 127 || byte == 9
}

/// Whether a byte string is the value of a header.
pub open spec fn is_header_value(bytes: Seq<u8>) -> bool {
    forall|index: int| 0 <= index < bytes.len() ==> is_header_value_byte(#[trigger] bytes[index])
}

/// Tests a method through `reqwest::Method::from_bytes`, which accepts the standard methods
/// and every other non-empty string of token characters.
#[verifier::external_body]
fn parses_as_method(bytes: &[u8]) -> (accepted: bool)
    ensures
        accepted == is_http_method(bytes@),
{
    reqwest::Method::from_bytes(bytes).is_ok()
}

/// Tests a URL through `reqwest::Url::parse`, which accepts absolute URLs.
#[verifier::external_body]
fn parses_as_url(text: &str) -> (accepted: bool)
    ensures
        accepted == is_absolute_url(text@),
{
    reqwest::Url::parse(text).is_ok()
}

/// Reads a header name through `HeaderName::try_from`, which accepts token characters up
/// to a length limit, and returns the name as `HeaderName::as_str` spells it: in lower
/// case. That spelling is itself a header name, and spells itself.
#[verifier::external_body]
fn parse_header_name(bytes: Vec<u8>) -> (name: Option<Vec<u8>>)
    ensures
        match name {
            Some(name) => header_name(bytes@) == Some(name@) && header_name(name@) == Some(name@),
            None => header_name(bytes@).is_none(),
        },
{
    match HeaderName::try_from(bytes) {
        Ok(name) => Some(name.as_str().as_bytes().to_vec()),
        Err(_) => None,
    }
}

/// Tests the value of a header through `HeaderValue::try_from`, which accepts a byte string
/// if each of its bytes may stand in a value.
#[verifier::external_body]
fn parses_as_header_value(bytes: &Vec<u8>) -> (accepted: bool)
    ensures
        accepted == is_header_value(bytes@),
{
    HeaderValue::try_from(bytes.as_slice()).is_ok()
}

#[verifier::external_type_specification]
#[verifier::external_body]
#[verifier::reject_recursive_types(T)]
pub struct ExHeaderMap<T>(HeaderMap<T>);

#[verifier::external_type_specification]
#[verifier::external_body]
pub struct ExHeaderValue(HeaderValue);

/// The headers that a header map holds, in the order in which they came in: of each the
/// name, in lower case, and the value.
pub uninterp spec fn header_map_entries(map: HeaderMap<HeaderValue>) -> Seq<(Seq<u8>, Seq<u8>)>;

/// As many headers a header map takes for sure; beyond that it may be full.
pub const SURE_HEADERS: usize = 1024;

/// An empty header map, through `HeaderMap::new`.
#[verifier::external_body]
fn new_header_map() -> (map: HeaderMap<HeaderValue>)
    ensures
        header_map_entries(map) == Seq::<(Seq<u8>, Seq<u8>)>::empty(),
{
    HeaderMap::new()
}

/// Puts a header into the map through `HeaderMap::try_insert`, which tells whether the
/// name is new to the map, and which refuses only where the map is full: with fewer than
/// [`SURE_HEADERS`] headers it is not. A new header comes behind those that are there;
/// two header names are the same exactly when they are spelled the same. `None` where the
/// map is full, or the name or the value is none.
#[verifier::external_body]
fn insert_header(map: &mut HeaderMap<HeaderValue>, name: &Vec<u8>, value: &Vec<u8>) -> (fresh:
    Option<bool>)
    requires
        header_name(name@) == Some(name@),
        is_header_value(value@),
    ensures
        header_map_entries(*old(map)).len() < SURE_HEADERS ==> fresh.is_some(),
        fresh.is_some() ==> fresh.unwrap() == !has_header(header_map_entries(*old(map)), name@),
        fresh == Some(true) ==> header_map_entries(*final(map)) == header_map_entries(
            *old(map),
        ).push((name@, value@)),
        fresh.is_none() ==> header_map_entries(*final(map)) == header_map_entries(*old(map)),
{
    match (HeaderName::from_bytes(name), HeaderValue::from_bytes(value)) {
        (Ok(name), Ok(value)) => match map.try_insert(name, value) {
            Ok(previous) => Some(previous.is_none()),
            Err(_) => None,
        },
        _ => None,
    }
}

/// An outbound request that has been decoded and checked: the method is an HTTP method,
/// the URL is absolute, and no two headers have the same name.
#[derive(Debug, PartialEq, Eq)]
pub struct OutboundRequest {
    pub method: Vec<u8>,
    pub url: String,
    pub headers: HeaderMap<HeaderValue>,
    pub body: Vec<u8>,
}

/// What an outbound request holds.
pub ghost struct OutboundRequestView {
    pub method: Seq<u8>,
    pub url: Seq<char>,
    pub headers: Seq<(Seq<u8>, Seq<u8>)>,
    pub body: Seq<u8>,
}

impl View for OutboundRequest {
    type V = OutboundRequestView;

    open spec fn view(&self) -> OutboundRequestView {
        OutboundRequestView {
            method: self.method@,
            url: self.url@,
            headers: header_map_entries(self.headers),
            body: self.body@,
        }
    }
}

/// Whether one of `headers` has the name `name`.
pub open spec fn has_header(headers: Seq<(Seq<u8>, Seq<u8>)>, name: Seq<u8>) -> bool {
    exists|index: int| 0 <= index < headers.len() && (#[trigger] headers[index]).0 == name
}

/// One header read from the guest's memory: the name first, then the value.
pub open spec fn header_spec<Usize: WasmUsize>(memory: Seq<u8>, data: HeaderData<Usize>) -> Result<
    (Seq<u8>, Seq<u8>),
    HostError,
> {
    match read_spec(memory, data.name.pointer.as_nat(), data.name.length.as_nat()) {
        Err(error) => Err(error),
        Ok(name) => match header_name(name) {
            None => Err(HostError::InvalidHeaderName),
            Some(name) => match read_spec(
                memory,
                data.value.pointer.as_nat(),
                data.value.length.as_nat(),
            ) {
                Err(error) => Err(error),
                Ok(value) => if is_header_value(value) {
                    Ok((name, value))
                } else {
                    Err(HostError::InvalidHeaderValue)
                },
            },
        },
    }
}

/// The headers read one after the other: the first that cannot be read, is malformed, or
/// repeats an earlier name decides the failure.
pub open spec fn headers_spec<Usize: WasmUsize>(
    memory: Seq<u8>,
    data: Seq<HeaderData<Usize>>,
) -> Result<Seq<(Seq<u8>, Seq<u8>)>, HostError>
    decreases data.len(),
{
    if data.len() == 0 {
        Ok(Seq::empty())
    } else {
        match headers_spec(memory, data.drop_last()) {
            Err(error) => Err(error),
            Ok(headers) => match header_spec(memory, data.last()) {
                Err(error) => Err(error),
                Ok(header) => if has_header(headers, header.0) {
                    Err(HostError::DuplicateHeader)
                } else {
                    Ok(headers.push(header))
                },
            },
        }
    }
}

/// The header with index `index`, read on its own.
pub open spec fn header_at<Usize: WasmUsize>(
    memory: Seq<u8>,
    data: Seq<HeaderData<Usize>>,
    index: int,
) -> Result<(Seq<u8>, Seq<u8>), HostError> {
    header_spec(memory, data[index])
}

/// Whether every header can be read and is well formed, and no two have the same name.
pub open spec fn headers_acceptable<Usize: WasmUsize>(
    memory: Seq<u8>,
    data: Seq<HeaderData<Usize>>,
) -> bool {
    &&& forall|i: int| 0 <= i < data.len() ==> (#[trigger] header_at(memory, data, i)).is_ok()
    &&& forall|i: int, j: int|
        0 <= i < j < data.len() ==> (#[trigger] header_at(memory, data, i))->Ok_0.0 != (
        #[trigger] header_at(memory, data, j))->Ok_0.0
}

/// The headers are accepted exactly when each of them can be read and is well formed and
/// no two of them have the same name; what is accepted is the headers as they were read,
/// in their order.
pub proof fn lemma_headers_accepted<Usize: WasmUsize>(
    memory: Seq<u8>,
    data: Seq<HeaderData<Usize>>,
)
    ensures
        headers_spec(memory, data).is_ok() <==> headers_acceptable(memory, data),
        headers_spec(memory, data).is_ok() ==> {
            let headers = headers_spec(memory, data)->Ok_0;
            &&& headers.len() == data.len()
            &&& forall|i: int|
                0 <= i < data.len() ==> #[trigger] header_at(memory, data, i) == Ok::<
                    (Seq<u8>, Seq<u8>),
                    HostError,
                >(headers[i])
        },
    decreases data.len(),
{
    if data.len() > 0 {
        let front = data.drop_last();
        let last = data.len() - 1;
        lemma_headers_accepted(memory, front);
        assert forall|i: int| 0 <= i < front.len() implies header_at(memory, front, i)
            == header_at(memory, data, i) by {
            assert(front[i] == data[i]);
        }
        if headers_spec(memory, front).is_ok() && header_at(memory, data, last).is_ok() {
            let headers = headers_spec(memory, front)->Ok_0;
            let name = header_at(memory, data, last)->Ok_0.0;
            if has_header(headers, name) {
                let i = choose|i: int| 0 <= i < headers.len() && (#[trigger] headers[i]).0 == name;
                assert(header_at(memory, data, i)->Ok_0.0 == header_at(
                    memory,
                    data,
                    last,
                )->Ok_0.0);
            } else {
                assert forall|i: int, j: int| 0 <= i < j < data.len() implies (
                #[trigger] header_at(memory, data, i))->Ok_0.0 != (#[trigger] header_at(
                    memory,
                    data,
                    j,
                ))->Ok_0.0 by {
                    if j == last {
                        assert(headers[i].0 != name);
                    } else {
                        assert(header_at(memory, front, i)->Ok_0.0 != header_at(
                            memory,
                            front,
                            j,
                        )->Ok_0.0);
                    }
                }
            }
        } else if headers_acceptable(memory, data) {
            assert(header_at(memory, data, last).is_ok());
            assert forall|i: int, j: int| 0 <= i < j < front.len() implies (
            #[trigger] header_at(memory, front, i))->Ok_0.0 != (#[trigger] header_at(
                memory,
                front,
                j,
            ))->Ok_0.0 by {
                assert(header_at(memory, data, i)->Ok_0.0 != header_at(memory, data, j)->Ok_0.0);
            }
            assert forall|i: int| 0 <= i < front.len() implies (#[trigger] header_at(
                memory,
                front,
                i,
            )).is_ok() by {
                assert(header_at(memory, data, i).is_ok());
            }
        }
    }
}

/// The outbound request that the guest's memory describes at `pointer`. The parts are read
/// and checked in this order: the method, the bytes of the URL, the body, the URL itself,
/// the headers.
pub open spec fn request_spec<Usize: WasmUsize>(memory: Seq<u8>, pointer: nat) -> Result<
    OutboundRequestView,
    HostError,
> {
    match read_value_spec::<RequestData<Usize>>(memory, pointer) {
        Err(error) => Err(error),
        Ok(data) => match read_spec(
            memory,
            data.method.pointer.as_nat(),
            data.method.length.as_nat(),
        ) {
            Err(error) => Err(error),
            Ok(method) => if !is_http_method(method) {
                Err(HostError::InvalidMethod)
            } else {
                match read_text_spec(memory, data.url.pointer.as_nat(), data.url.length.as_nat()) {
                    Err(error) => Err(error),
                    Ok(url) => match read_spec(
                        memory,
                        data.body.pointer.as_nat(),
                        data.body.length.as_nat(),
                    ) {
                        Err(error) => Err(error),
                        Ok(body) => if !is_absolute_url(url) {
                            Err(HostError::InvalidUrl)
                        } else {
                            match read_array_spec::<Usize, HeaderData<Usize>>(
                                memory,
                                data.headers.pointer.as_nat(),
                                data.headers.length.as_nat(),
                            ) {
                                Err(error) => Err(error),
                                Ok(headers) => match headers_spec(memory, headers) {
                                    Err(error) => Err(error),
                                    Ok(headers) => Ok(
                                        OutboundRequestView { method, url, headers, body },
                                    ),
                                },
                            }
                        },
                    },
                }
            },
        },
    }
}

/// Reads and checks one header: its name in lower case, and its value.
fn read_header<Usize: WasmUsize>(memory: &[u8], data: &HeaderData<Usize>) -> (header: Result<
    (Vec<u8>, Vec<u8>),
    HostError,
>)
    ensures
        match header {
            Ok((name, value)) => {
                &&& header_spec(memory@, *data) == Ok::<(Seq<u8>, Seq<u8>), HostError>(
                    (name@, value@),
                )
                &&& header_name(name@) == Some(name@)
                &&& is_header_value(value@)
            },
            Err(error) => header_spec(memory@, *data) == Err::<(Seq<u8>, Seq<u8>), HostError>(
                error,
            ),
        },
{
    let name: Vec<u8> = read_from_memory_to_buffer(memory, data.name.pointer, data.name.length)?;
    let name: Vec<u8> = match parse_header_name(name) {
        Some(name) => name,
        None => {
            return Err(HostError::InvalidHeaderName);
        },
    };
    let value: Vec<u8> = read_from_memory_to_buffer(
        memory,
        data.value.pointer,
        data.value.length,
    )?;
    if !parses_as_header_value(&value) {
        return Err(HostError::InvalidHeaderValue);
    }
    Ok((name, value))
}

/// Reads and checks the headers one after the other and gathers them in a header map,
/// which finds the names that come twice. A map that is full ends the reading with
/// `TooManyHeaders`: that is for the map to say, and not before it holds
/// [`SURE_HEADERS`] headers.
fn read_headers<Usize: WasmUsize>(memory: &[u8], data: &Vec<HeaderData<Usize>>) -> (headers:
    Result<HeaderMap<HeaderValue>, HostError>)
    ensures
        match headers {
            Ok(headers) => headers_spec(memory@, data@) == Ok::<
                Seq<(Seq<u8>, Seq<u8>)>,
                HostError,
            >(header_map_entries(headers)),
            Err(error) => headers_spec(memory@, data@) == Err::<
                Seq<(Seq<u8>, Seq<u8>)>,
                HostError,
            >(error) || (error == HostError::TooManyHeaders && data@.len() > SURE_HEADERS),
        },
{
    let mut headers: HeaderMap<HeaderValue> = new_header_map();
    let mut index: usize = 0;
    while index < data.len()
        invariant
            index <= data@.len(),
            header_map_entries(headers).len() == index,
            headers_spec(memory@, data@.take(index as int)) == Ok::<
                Seq<(Seq<u8>, Seq<u8>)>,
                HostError,
            >(header_map_entries(headers)),
        decreases data@.len() - index,
    {
        proof {
            assert(data@.take(index + 1).drop_last() =~= data@.take(index as int));
        }
        match read_header(memory, &data[index]) {
            Ok((name, value)) => {
                match insert_header(&mut headers, &name, &value) {
                    Some(true) => {},
                    Some(false) => {
                        proof {
                            lemma_headers_fail(memory@, data@, index + 1);
                        }
                        return Err(HostError::DuplicateHeader);
                    },
                    None => {
                        return Err(HostError::TooManyHeaders);
                    },
                }
            },
            Err(error) => {
                proof {
                    lemma_headers_fail(memory@, data@, index + 1);
                }
                return Err(error);
            },
        }
        index = index + 1;
    }
    assert(data@.take(index as int) =~= data@);
    Ok(headers)
}

/// Once the first `count` headers cannot be taken, the whole array cannot, for the same
/// reason.
proof fn lemma_headers_fail<Usize: WasmUsize>(
    memory: Seq<u8>,
    data: Seq<HeaderData<Usize>>,
    count: int,
)
    requires
        0 <= count <= data.len(),
        headers_spec(memory, data.take(count)).is_err(),
    ensures
        headers_spec(memory, data) == headers_spec(memory, data.take(count)),
    decreases data.len(),
{
    if count < data.len() {
        assert(data.drop_last().take(count) =~= data.take(count));
        lemma_headers_fail(memory, data.drop_last(), count);
    } else {
        assert(data.take(count) =~= data);
    }
}

/// What the first step of a send gives: a refusal while a response is in the slot, else
/// the outbound request that the guest describes at `pointer`.
pub open spec fn begin_send_spec<Vault, Usize: WasmUsize>(
    env: SdkEnv<Vault>,
    memory: Seq<u8>,
    pointer: nat,
) -> Result<OutboundRequestView, HostError> {
    if env.network.response.is_some() {
        Err(HostError::ResponseNotDropped)
    } else {
        request_spec::<Usize>(memory, pointer)
    }
}

/// Whether the guest describes, at `pointer`, a request with more headers than a header
/// map takes for sure.
pub open spec fn has_many_headers<Usize: WasmUsize>(memory: Seq<u8>, pointer: nat) -> bool {
    match read_value_spec::<RequestData<Usize>>(memory, pointer) {
        Ok(data) => data.headers.length.as_nat() > SURE_HEADERS,
        Err(_) => false,
    }
}

/// The first step of a send: refuses while the response to the previous request has not
/// been dropped, before anything is read or sent; else decodes the outbound request that
/// the guest describes at `request_ptr` and checks it. The environment is not touched.
/// A request of more than [`SURE_HEADERS`] headers may also end with `TooManyHeaders`,
/// where the header map says that it is full.
pub fn begin_send_request<Vault, Usize: WasmUsize>(
    env: &SdkEnv<Vault>,
    memory: &[u8],
    request_ptr: Usize,
) -> (request: Result<OutboundRequest, HostError>)
    ensures
        match request {
            Ok(request) => begin_send_spec::<Vault, Usize>(*env, memory@, request_ptr.as_nat())
                == Ok::<OutboundRequestView, HostError>(request@),
            Err(error) => begin_send_spec::<Vault, Usize>(*env, memory@, request_ptr.as_nat())
                == Err::<OutboundRequestView, HostError>(error) || (error
                == HostError::TooManyHeaders && has_many_headers::<Usize>(
                memory@,
                request_ptr.as_nat(),
            )),
        },
{
    if env.network.response.is_some() {
        return Err(HostError::ResponseNotDropped);
    }
    let data: RequestData<Usize> = read_value_from_memory(memory, request_ptr)?;
    let method: Vec<u8> = read_from_memory_to_buffer(
        memory,
        data.method.pointer,
        data.method.length,
    )?;
    if !parses_as_method(method.as_slice()) {
        return Err(HostError::InvalidMethod);
    }
    let url: String = read_text_from_memory(memory, data.url.pointer, data.url.length)?;
    let body: Vec<u8> = read_from_memory_to_buffer(memory, data.body.pointer, data.body.length)?;
    if !parses_as_url(url.as_str()) {
        return Err(HostError::InvalidUrl);
    }
    let headers: Vec<HeaderData<Usize>> = read_value_array_from_memory(
        memory,
        data.headers.pointer,
        data.headers.length,
    )?;
    proof {
        lemma_elements_count::<Usize, HeaderData<Usize>>(
            memory@,
            data.headers.pointer.as_nat(),
            data.headers.length.as_nat(),
        );
    }
    let headers: HeaderMap<HeaderValue> = read_headers(memory, &headers)?;
    Ok(OutboundRequest { method, url, headers, body })
}

/// How the second step of a send changes the environment and what it returns. Into an
/// empty slot the response is stored under a new access ID. A slot that still holds a
/// response keeps it, with its access ID, and the guest is handed zero: a response is
/// replaced only after it was dropped.
pub open spec fn send_finished<Vault>(
    before: SdkEnv<Vault>,
    response: NetworkResponse,
    after: SdkEnv<Vault>,
    id: u64,
) -> bool {
    if before.network.response.is_some() {
        id == 0 && after == before
    } else {
        &&& id == next_access_id(before.network.response_id)
        &&& after == (SdkEnv {
            network: Network { response_id: id, response: Some(response) },
            ..before
        })
    }
}

/// The second step of a send: stores the response to the outbound request in the network
/// slot and issues the access ID under which the guest reads it.
pub fn finish_send_request<Vault>(env: &mut SdkEnv<Vault>, status_code: u16, data: Vec<u8>) -> (id:
    u64)
    ensures
        send_finished(*old(env), NetworkResponse { status_code, data }, *final(env), id),
        old(env).network.response.is_none() ==> id != 0,
        old(env).wf() ==> final(env).wf(),
{
    if env.network.response.is_some() {
        return 0;
    }
    env.network.response = Some(NetworkResponse::new(status_code, data));
    env.network.response_id = advance_access_id(env.network.response_id);
    env.network.response_id
}

/// No second response while the first is there: after a send that stored a response, the
/// next send is refused, whatever the guest asks for, and a response that would come in
/// all the same leaves the slot as it is.
pub proof fn lemma_one_response_at_a_time<Vault, Usize: WasmUsize>(
    before: SdkEnv<Vault>,
    response: NetworkResponse,
    after: SdkEnv<Vault>,
    id: u64,
    memory: Seq<u8>,
    pointer: nat,
    next: NetworkResponse,
    later: SdkEnv<Vault>,
    next_id: u64,
)
    requires
        before.network.response.is_none(),
        send_finished(before, response, after, id),
        send_finished(after, next, later, next_id),
    ensures
        begin_send_spec::<Vault, Usize>(after, memory, pointer) == Err::<
            OutboundRequestView,
            HostError,
        >(HostError::ResponseNotDropped),
        next_id == 0,
        later == after,
        response_of(later, id) == Ok::<NetworkResponse, HostError>(response),
{
}

/// Once the response is dropped, the next send is not refused on its account, and the
/// access ID of the dropped response finds nothing.
pub proof fn lemma_send_after_drop<Vault, Usize: WasmUsize>(
    env: SdkEnv<Vault>,
    memory: Seq<u8>,
    pointer: nat,
)
    requires
        env.network.response.is_none(),
    ensures
        begin_send_spec::<Vault, Usize>(env, memory, pointer) == request_spec::<Usize>(
            memory,
            pointer,
        ),
        response_of(env, env.network.response_id) == Err::<NetworkResponse, HostError>(
            HostError::NoResponse,
        ),
{
}

/// What a call on the response finds: with the right access ID, the response.
pub open spec fn response_of<Vault>(env: SdkEnv<Vault>, id: u64) -> Result<
    NetworkResponse,
    HostError,
> {
    if id != env.network.response_id {
        Err(HostError::AccessIdMismatch)
    } else {
        match env.network.response {
            Some(response) => Ok(response),
            None => Err(HostError::NoResponse),
        }
    }
}

/// A call with any access ID but the one issued last is refused, whatever the slot holds.
pub proof fn lemma_stale_response_id<Vault>(env: SdkEnv<Vault>, id: u64, length: u64)
    requires
        id != env.network.response_id,
    ensures
        response_of(env, id) == Err::<NetworkResponse, HostError>(HostError::AccessIdMismatch),
        dropped_spec(env, id, length) == Err::<Seq<u8>, HostError>(HostError::AccessIdMismatch),
{
}

/// The status of the response.
pub fn response_status_code<Vault>(env: &SdkEnv<Vault>, id: u64) -> (status_code: Result<
    u32,
    HostError,
>)
    ensures
        status_code == match response_of(*env, id) {
            Ok(response) => Ok::<u32, HostError>(response.status_code as u32),
            Err(error) => Err::<u32, HostError>(error),
        },
{
    if id != env.network.response_id {
        return Err(HostError::AccessIdMismatch);
    }
    match &env.network.response {
        Some(response) => Ok(response.status_code() as u32),
        None => Err(HostError::NoResponse),
    }
}

/// How much of the body of the response is left unread.
pub fn response_data_length<Vault>(env: &SdkEnv<Vault>, id: u64) -> (length: Result<
    u64,
    HostError,
>)
    ensures
        length == match response_of(*env, id) {
            Ok(response) => Ok::<u64, HostError>(response.data@.len() as u64),
            Err(error) => Err::<u64, HostError>(error),
        },
{
    if id != env.network.response_id {
        return Err(HostError::AccessIdMismatch);
    }
    match &env.network.response {
        Some(response) => u64::from_usize(response.data().len()),
        None => Err(HostError::NoResponse),
    }
}

/// Moves the next bytes of the body of the response into the guest's buffer and says how
/// many they were. A buffer of no bytes is served with zero before the slot is looked at.
pub fn response_data<Vault, Usize: WasmUsize>(
    env: &mut SdkEnv<Vault>,
    memory: &mut [u8],
    id: u64,
    buffer_ptr: Usize,
    buffer_length: Usize,
) -> (read: Result<Usize, HostError>)
    ensures
        final(env).request_reader_id == old(env).request_reader_id,
        final(env).request == old(env).request,
        final(env).response == old(env).response,
        final(env).vault_keeper == old(env).vault_keeper,
        final(env).network.response_id == old(env).network.response_id,
        id != old(env).network.response_id ==> {
            &&& read == Err::<Usize, HostError>(HostError::AccessIdMismatch)
            &&& final(env).network == old(env).network
            &&& final(memory)@ == old(memory)@
        },
        id == old(env).network.response_id && buffer_length.as_nat() == 0 ==> {
            &&& read.is_ok() && read.unwrap().as_nat() == 0
            &&& final(env).network == old(env).network
            &&& final(memory)@ == old(memory)@
        },
        id == old(env).network.response_id && buffer_length.as_nat() != 0 ==> match old(
            env,
        ).network.response {
            None => {
                &&& read == Err::<Usize, HostError>(HostError::NoResponse)
                &&& final(env).network == old(env).network
                &&& final(memory)@ == old(memory)@
            },
            Some(response) => {
                let count = moved(buffer_length.as_nat(), response.data@.len());
                &&& returns_count(
                    read,
                    write_outcome(
                        old(memory)@,
                        response.data@.take(count as int),
                        buffer_ptr.as_nat(),
                        buffer_length.as_nat(),
                    ),
                )
                &&& final(memory)@ == written_memory(
                    old(memory)@,
                    response.data@.take(count as int),
                    buffer_ptr.as_nat(),
                    buffer_length.as_nat(),
                )
                &&& final(env).network.response.is_some()
                &&& final(env).network.response.unwrap().status_code == response.status_code
                &&& final(env).network.response.unwrap().data@ == response.data@.skip(
                    count as int,
                )
            },
        },
        old(env).wf() ==> final(env).wf(),
{
    if id != env.network.response_id {
        return Err(HostError::AccessIdMismatch);
    }
    if buffer_length.is_zero() {
        return Ok(Usize::zero());
    }
    match &mut env.network.response {
        Some(response) => write_from_buffer_to_memory(
            memory,
            response.data_mut(),
            buffer_ptr,
            buffer_length,
        ),
        None => Err(HostError::NoResponse),
    }
}

/// What dropping `length` bytes of the response leaves unread.
pub open spec fn dropped_spec<Vault>(env: SdkEnv<Vault>, id: u64, length: u64) -> Result<
    Seq<u8>,
    HostError,
> {
    match response_of(env, id) {
        Err(error) => Err(error),
        Ok(response) => if into_usize_spec(length as nat).is_err() {
            Err(HostError::IntegerConversion)
        } else if length > response.data@.len() {
            Err(HostError::DropTooLong)
        } else {
            Ok(response.data@.skip(length as int))
        },
    }
}

/// Drops the next `length` bytes of the body of the response unread.
pub fn drop_some_response_data<Vault>(env: &mut SdkEnv<Vault>, id: u64, length: u64) -> (done:
    Result<(), HostError>)
    ensures
        final(env).request_reader_id == old(env).request_reader_id,
        final(env).request == old(env).request,
        final(env).response == old(env).response,
        final(env).vault_keeper == old(env).vault_keeper,
        final(env).network.response_id == old(env).network.response_id,
        match dropped_spec(*old(env), id, length) {
            Ok(rest) => {
                &&& done == Ok::<(), HostError>(())
                &&& final(env).network.response.is_some()
                &&& final(env).network.response.unwrap().status_code == old(
                    env,
                ).network.response.unwrap().status_code
                &&& final(env).network.response.unwrap().data@ == rest
            },
            Err(error) => {
                &&& done == Err::<(), HostError>(error)
                &&& final(env).network == old(env).network
            },
        },
        old(env).wf() ==> final(env).wf(),
{
    if id != env.network.response_id {
        return Err(HostError::AccessIdMismatch);
    }
    match &mut env.network.response {
        Some(response) => {
            let length: usize = length.into_usize()?;
            let data: &mut Vec<u8> = response.data_mut();
            if length > data.len() {
                return Err(HostError::DropTooLong);
            }
            let mut rest: Vec<u8> = data.split_off(length);
            core::mem::swap(data, &mut rest);
            Ok(())
        },
        None => Err(HostError::NoResponse),
    }
}

/// Drops the response: the slot is empty again, so that the next request can be sent. The
/// counter stays, and a later call with this access ID finds no response.
pub fn drop_response<Vault>(env: &mut SdkEnv<Vault>, id: u64) -> (done: Result<(), HostError>)
    ensures
        match response_of(*old(env), id) {
            Ok(_) => {
                &&& done == Ok::<(), HostError>(())
                &&& *final(env) == (SdkEnv {
                    network: Network {
                        response_id: old(env).network.response_id,
                        response: None,
                    },
                    ..*old(env)
                })
            },
            Err(error) => {
                &&& done == Err::<(), HostError>(error)
                &&& *final(env) == *old(env)
            },
        },
        old(env).wf() ==> final(env).wf(),
{
    if id != env.network.response_id {
        return Err(HostError::AccessIdMismatch);
    }
    if env.network.response.is_none() {
        return Err(HostError::NoResponse);
    }
    env.network.response = None;
    Ok(())
}

} // verus!
