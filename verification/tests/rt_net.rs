use lambda::rt::error::HostError;
use lambda::rt::net::{
    begin_send_request, drop_response, drop_some_response_data, finish_send_request,
    response_data, response_data_length, response_status_code, HeaderData, OutboundRequest,
    RequestData, SURE_HEADERS,
};
use lambda::rt::utils::{RawValue, SlicePointer};
use reqwest::header::{HeaderMap, HeaderName, HeaderValue};
use lambda::rt::{NetworkResponse, SdkEnv};

/// The header map that holds these headers, in this order.
fn header_map(headers: &[(&str, &[u8])]) -> HeaderMap {
    let mut map = HeaderMap::new();
    for (name, value) in headers {
        let name = HeaderName::from_bytes(name.as_bytes()).unwrap();
        assert!(map.insert(name, HeaderValue::from_bytes(value).unwrap()).is_none());
    }
    map
}

fn env() -> SdkEnv<()> {
    SdkEnv::new(())
}

/// Lays a request out in a memory as a 32-bit guest does: the parts one after the other
/// from address 64 on, the headers' table behind them, and the request itself at address 0.
fn layout(method: &[u8], url: &[u8], headers: &[(&[u8], &[u8])], body: &[u8]) -> Vec<u8> {
    let mut memory = vec![0u8; 64];
    let mut place = |memory: &mut Vec<u8>, bytes: &[u8]| -> (u32, u32) {
        let at = memory.len() as u32;
        memory.extend_from_slice(bytes);
        (at, bytes.len() as u32)
    };
    let method = place(&mut memory, method);
    let url = place(&mut memory, url);
    let body = place(&mut memory, body);
    let mut table: Vec<u8> = Vec::new();
    for (name, value) in headers {
        let name = place(&mut memory, name);
        let value = place(&mut memory, value);
        for part in [name.0, name.1, value.0, value.1] {
            table.extend_from_slice(&part.to_le_bytes());
        }
    }
    let table_at = memory.len() as u32;
    memory.extend_from_slice(&table);
    let words = [method.0, method.1, url.0, url.1, table_at, headers.len() as u32, body.0, body.1];
    for (index, word) in words.iter().enumerate() {
        memory[index * 4..index * 4 + 4].copy_from_slice(&word.to_le_bytes());
    }
    memory
}

#[test]
fn request_layouts_are_read_field_by_field() {
    let bytes: Vec<u8> = (1..=8u32).flat_map(|word| word.to_le_bytes()).collect();
    assert_eq!(
        RequestData::<u32>::from_wasm_bytes(&bytes),
        Ok(RequestData {
            method: SlicePointer { pointer: 1, length: 2 },
            url: SlicePointer { pointer: 3, length: 4 },
            headers: SlicePointer { pointer: 5, length: 6 },
            body: SlicePointer { pointer: 7, length: 8 },
        })
    );
    assert_eq!(
        HeaderData::<u32>::from_wasm_bytes(&bytes[..16]),
        Ok(HeaderData {
            name: SlicePointer { pointer: 1, length: 2 },
            value: SlicePointer { pointer: 3, length: 4 },
        })
    );
    let wide: Vec<u8> = (1..=8u64).flat_map(|word| word.to_le_bytes()).collect();
    assert_eq!(
        RequestData::<u64>::from_wasm_bytes(&wide),
        Ok(RequestData {
            method: SlicePointer { pointer: 1, length: 2 },
            url: SlicePointer { pointer: 3, length: 4 },
            headers: SlicePointer { pointer: 5, length: 6 },
            body: SlicePointer { pointer: 7, length: 8 },
        })
    );
    assert_eq!(RequestData::<u32>::from_wasm_bytes(&bytes[..31]), Err(HostError::InvalidLength));
    assert_eq!(HeaderData::<u32>::from_wasm_bytes(&bytes), Err(HostError::InvalidLength));
    assert_eq!(<RequestData<u32> as RawValue>::size(), 32);
    assert_eq!(<RequestData<u64> as RawValue>::size(), 64);
    assert_eq!(<HeaderData<u32> as RawValue>::size(), 16);
    assert_eq!(<HeaderData<u64> as RawValue>::size(), 32);
}

#[test]
fn a_request_is_decoded_from_the_guests_memory() {
    let memory = layout(
        b"POST",
        b"https://example.org/path?x=1",
        &[(b"Content-Type", b"text/plain"), (b"x-token", b"abc")],
        b"hello",
    );
    assert_eq!(
        begin_send_request(&env(), &memory, 0u32),
        Ok(OutboundRequest {
            method: b"POST".to_vec(),
            url: String::from("https://example.org/path?x=1"),
            headers: header_map(&[("content-type", b"text/plain"), ("x-token", b"abc")]),
            body: b"hello".to_vec(),
        })
    );
}

#[test]
fn a_request_without_headers_and_body_is_decoded() {
    let memory = layout(b"GET", b"https://dir.bg", &[], b"");
    assert_eq!(
        begin_send_request(&env(), &memory, 0u32),
        Ok(OutboundRequest {
            method: b"GET".to_vec(),
            url: String::from("https://dir.bg"),
            headers: HeaderMap::new(),
            body: vec![],
        })
    );
}

#[test]
fn methods_are_parsed_strictly() {
    let memory = layout(b"", b"https://example.org", &[], b"");
    assert_eq!(begin_send_request(&env(), &memory, 0u32), Err(HostError::InvalidMethod));
    let memory = layout(b"GE T", b"https://example.org", &[], b"");
    assert_eq!(begin_send_request(&env(), &memory, 0u32), Err(HostError::InvalidMethod));
    let memory = layout(b"PURGE", b"https://example.org", &[], b"");
    assert!(begin_send_request(&env(), &memory, 0u32).is_ok());
}

#[test]
fn urls_have_to_be_absolute_text() {
    let memory = layout(b"GET", b"/relative", &[], b"");
    assert_eq!(begin_send_request(&env(), &memory, 0u32), Err(HostError::InvalidUrl));
    let memory = layout(b"GET", b"", &[], b"");
    assert_eq!(begin_send_request(&env(), &memory, 0u32), Err(HostError::InvalidUrl));
    let memory = layout(b"GET", b"https://example.org/\xff", &[], b"");
    assert_eq!(begin_send_request(&env(), &memory, 0u32), Err(HostError::InvalidUtf8));
}

#[test]
fn the_method_is_checked_before_the_url() {
    let memory = layout(b"", b"\xff", &[], b"");
    assert_eq!(begin_send_request(&env(), &memory, 0u32), Err(HostError::InvalidMethod));
}

#[test]
fn malformed_headers_are_refused() {
    let memory = layout(b"GET", b"https://example.org", &[(b"bad name", b"v")], b"");
    assert_eq!(begin_send_request(&env(), &memory, 0u32), Err(HostError::InvalidHeaderName));
    let memory = layout(b"GET", b"https://example.org", &[(b"", b"v")], b"");
    assert_eq!(begin_send_request(&env(), &memory, 0u32), Err(HostError::InvalidHeaderName));
    let memory = layout(b"GET", b"https://example.org", &[(b"name", b"line\nbreak")], b"");
    assert_eq!(begin_send_request(&env(), &memory, 0u32), Err(HostError::InvalidHeaderValue));
    let memory = layout(b"GET", b"https://example.org", &[(b"name", b"del\x7f")], b"");
    assert_eq!(begin_send_request(&env(), &memory, 0u32), Err(HostError::InvalidHeaderValue));
    let memory = layout(b"GET", b"https://example.org", &[(b"name", b"tab\tand \xfa")], b"");
    assert!(begin_send_request(&env(), &memory, 0u32).is_ok());
}

#[test]
fn headers_keep_their_order_and_their_bytes() {
    let memory = layout(
        b"GET",
        b"https://example.org",
        &[(b"Zulu", b"1"), (b"alpha", b"tab\tand \xfa"), (b"Mike", b"")],
        b"",
    );
    let request = begin_send_request(&env(), &memory, 0u32).unwrap();
    let read: Vec<(&str, &[u8])> =
        request.headers.iter().map(|(name, value)| (name.as_str(), value.as_bytes())).collect();
    assert_eq!(
        read,
        vec![("zulu", &b"1"[..]), ("alpha", &b"tab\tand \xfa"[..]), ("mike", &b""[..])]
    );
}

#[test]
fn many_headers_are_taken_until_the_map_is_full() {
    let names: Vec<String> = (0..40_000).map(|index| format!("h{}", index)).collect();
    let headers: Vec<(&[u8], &[u8])> =
        names.iter().map(|name| (name.as_bytes(), &b"v"[..])).collect();
    let memory = layout(b"GET", b"https://example.org", &headers[..SURE_HEADERS], b"");
    assert_eq!(begin_send_request(&env(), &memory, 0u32).unwrap().headers.len(), SURE_HEADERS);
    let memory = layout(b"GET", b"https://example.org", &headers[..2 * SURE_HEADERS], b"");
    assert_eq!(
        begin_send_request(&env(), &memory, 0u32).unwrap().headers.len(),
        2 * SURE_HEADERS
    );
    let memory = layout(b"GET", b"https://example.org", &headers, b"");
    assert_eq!(begin_send_request(&env(), &memory, 0u32), Err(HostError::TooManyHeaders));
}

#[test]
fn duplicate_header_names_are_refused() {
    let memory = layout(b"GET", b"https://example.org", &[(b"a", b"1"), (b"b", b"2"), (b"a", b"3")], b"");
    assert_eq!(begin_send_request(&env(), &memory, 0u32), Err(HostError::DuplicateHeader));
    let memory = layout(b"GET", b"https://example.org", &[(b"Accept", b"1"), (b"aCCEPT", b"2")], b"");
    assert_eq!(begin_send_request(&env(), &memory, 0u32), Err(HostError::DuplicateHeader));
}

#[test]
fn the_first_faulty_header_decides() {
    let memory = layout(
        b"GET",
        b"https://example.org",
        &[(b"a", b"1"), (b"bad name", b"2"), (b"a", b"3")],
        b"",
    );
    assert_eq!(begin_send_request(&env(), &memory, 0u32), Err(HostError::InvalidHeaderName));
    let memory = layout(
        b"GET",
        b"https://example.org",
        &[(b"a", b"1"), (b"a", b"\n"), (b"bad name", b"3")],
        b"",
    );
    assert_eq!(begin_send_request(&env(), &memory, 0u32), Err(HostError::InvalidHeaderValue));
}

#[test]
fn a_request_outside_the_memory_is_refused() {
    let memory = layout(b"GET", b"https://example.org", &[], b"");
    assert_eq!(
        begin_send_request(&env(), &memory, memory.len() as u32 - 8),
        Err(HostError::MemoryAccess)
    );
    let mut broken = memory.clone();
    broken[4..8].copy_from_slice(&u32::MAX.to_le_bytes());
    assert_eq!(begin_send_request(&env(), &broken, 0u32), Err(HostError::MemoryAccess));
    let mut broken = memory.clone();
    broken[20..24].copy_from_slice(&1000u32.to_le_bytes());
    assert_eq!(begin_send_request(&env(), &broken, 0u32), Err(HostError::MemoryAccess));
}

#[test]
fn a_response_is_stored_under_a_new_id() {
    let mut env: SdkEnv<()> = SdkEnv::new(());
    let id = finish_send_request(&mut env, 200, vec![1, 2, 3]);
    assert_eq!(id, 2);
    assert_eq!(env.network.response_id, 2);
    assert_eq!(env.network.response, Some(NetworkResponse::new(200, vec![1, 2, 3])));
    assert_eq!(response_status_code(&env, id), Ok(200));
    assert_eq!(response_data_length(&env, id), Ok(3));
}

#[test]
fn a_second_request_is_refused_while_a_response_is_held() {
    let mut env: SdkEnv<()> = SdkEnv::new(());
    let memory = layout(b"GET", b"https://example.org", &[], b"");
    assert!(begin_send_request(&env, &memory, 0u32).is_ok());
    let first = finish_send_request(&mut env, 200, vec![1, 2, 3]);
    assert_eq!(begin_send_request(&env, &memory, 0u32), Err(HostError::ResponseNotDropped));
    assert_eq!(begin_send_request(&env, &memory, 4000u32), Err(HostError::ResponseNotDropped));
    assert_eq!(begin_send_request(&env, &[], 0u64), Err(HostError::ResponseNotDropped));
    assert_eq!(finish_send_request(&mut env, 404, vec![9]), 0);
    assert_eq!(env.network.response_id, first);
    assert_eq!(env.network.response, Some(NetworkResponse::new(200, vec![1, 2, 3])));
    assert_eq!(response_status_code(&env, first), Ok(200));
    let mut buffer = vec![0u8; 4];
    assert_eq!(response_data(&mut env, &mut buffer, first, 0u32, 4u32), Ok(3));
    assert_eq!(begin_send_request(&env, &memory, 0u32), Err(HostError::ResponseNotDropped));
}

#[test]
fn after_a_drop_the_next_request_is_sent_under_a_new_id() {
    let mut env: SdkEnv<()> = SdkEnv::new(());
    let memory = layout(b"GET", b"https://example.org", &[], b"");
    let first = finish_send_request(&mut env, 200, vec![1, 2, 3]);
    assert_eq!(drop_response(&mut env, first), Ok(()));
    assert!(env.network.response.is_none());
    assert_eq!(env.network.response_id, first);
    assert!(begin_send_request(&env, &memory, 0u32).is_ok());
    let second = finish_send_request(&mut env, 404, vec![9]);
    assert!(second > first);
    assert_eq!(env.network.response, Some(NetworkResponse::new(404, vec![9])));
    assert_eq!(response_status_code(&env, first), Err(HostError::AccessIdMismatch));
    assert_eq!(response_data_length(&env, first), Err(HostError::AccessIdMismatch));
    assert_eq!(drop_response(&mut env, first), Err(HostError::AccessIdMismatch));
    assert_eq!(drop_some_response_data(&mut env, first, 1), Err(HostError::AccessIdMismatch));
    let mut buffer = vec![0u8; 4];
    assert_eq!(
        response_data(&mut env, &mut buffer, first, 0u32, 4u32),
        Err(HostError::AccessIdMismatch)
    );
    assert_eq!(response_status_code(&env, second), Ok(404));
    assert_eq!(env.network.response, Some(NetworkResponse::new(404, vec![9])));
}

#[test]
fn the_response_id_wraps_to_one() {
    let mut env: SdkEnv<()> = SdkEnv::new(());
    env.network.response_id = u64::MAX;
    assert_eq!(finish_send_request(&mut env, 200, vec![]), 1);
}

#[test]
fn before_any_request_there_is_no_response() {
    let mut env: SdkEnv<()> = SdkEnv::new(());
    let mut memory = vec![0u8; 4];
    assert_eq!(response_status_code(&env, 1), Err(HostError::NoResponse));
    assert_eq!(response_data_length(&env, 1), Err(HostError::NoResponse));
    assert_eq!(response_data(&mut env, &mut memory, 1, 0u32, 4u32), Err(HostError::NoResponse));
    assert_eq!(response_data(&mut env, &mut memory, 1, 0u32, 0u32), Ok(0));
    assert_eq!(drop_some_response_data(&mut env, 1, 0), Err(HostError::NoResponse));
    assert_eq!(drop_response(&mut env, 1), Err(HostError::NoResponse));
    assert_eq!(response_status_code(&env, 0), Err(HostError::AccessIdMismatch));
}

#[test]
fn the_response_body_is_read_skipped_and_dropped() {
    let mut env: SdkEnv<()> = SdkEnv::new(());
    let id = finish_send_request(&mut env, 201, vec![1, 2, 3, 4, 5, 6, 7]);
    let mut memory = vec![0u8; 4];
    assert_eq!(response_data(&mut env, &mut memory, id, 1u32, 2u32), Ok(2));
    assert_eq!(memory, vec![0, 1, 2, 0]);
    assert_eq!(response_data_length(&env, id), Ok(5));
    assert_eq!(drop_some_response_data(&mut env, id, 2), Ok(()));
    assert_eq!(response_data_length(&env, id), Ok(3));
    assert_eq!(drop_some_response_data(&mut env, id, 4), Err(HostError::DropTooLong));
    assert_eq!(response_data_length(&env, id), Ok(3));
    assert_eq!(response_data(&mut env, &mut memory, id, 0u64, 1u64), Ok(1));
    assert_eq!(memory, vec![5, 1, 2, 0]);
    assert_eq!(drop_response(&mut env, id), Ok(()));
    assert_eq!(env.network.response, None);
    assert_eq!(env.network.response_id, id);
    assert_eq!(response_data_length(&env, id), Err(HostError::NoResponse));
    assert_eq!(response_status_code(&env, id), Err(HostError::NoResponse));
    assert_eq!(drop_some_response_data(&mut env, id, 0), Err(HostError::NoResponse));
    assert_eq!(drop_response(&mut env, id), Err(HostError::NoResponse));
    assert_eq!(response_data(&mut env, &mut memory, id, 0u32, 1u32), Err(HostError::NoResponse));
}
