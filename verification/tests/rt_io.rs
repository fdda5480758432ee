use lambda::rt::context::{sender_username, sender_username_length};
use lambda::rt::debug::debug_str;
use lambda::rt::error::HostError;
use lambda::rt::instance::{begin_execute, finish_execute, is_clean, EntryOutcome};
use lambda::rt::io::{
    read_request_data, receive_request_data_id, request_data_length, set_response_is_error,
    write_response_data,
};
use lambda::rt::module::{verify_exports, ExportKind, StaticModuleVerificationError};
use lambda::rt::{
    Context, ModuleResponse, Network, NetworkResponse, Response, SdkContext, SdkEnv, SdkUser,
    User, VaultKeeper,
};

fn env() -> SdkEnv<()> {
    SdkEnv::new(())
}

#[test]
fn a_fresh_environment_is_idle_and_holds_the_first_ids() {
    let env = env();
    assert_eq!(env.request_reader_id, 1);
    assert_eq!(env.network.response_id, 1);
    assert_eq!(env.vault_keeper.secret_id, 1);
    assert!(env.request.is_empty());
    assert_eq!(env.response, ModuleResponse::new());
    assert_eq!(env.response, ModuleResponse { is_error: false, data: vec![] });
    assert_eq!(ModuleResponse::default(), ModuleResponse::new());
    assert_eq!(NetworkResponse::default(), NetworkResponse::new(0, vec![]));
    assert!(env.network.response.is_none());
    assert!(env.vault_keeper.secret.is_none());
    let network = Network::new();
    assert_eq!(network.response_id, 1);
    assert!(network.response.is_none());
    let keeper = VaultKeeper::new(7u8);
    assert_eq!(keeper.vault, 7);
    assert_eq!(keeper.secret_id, 1);
    assert!(keeper.secret.is_none());
}

#[test]
fn network_responses_hand_out_their_parts() {
    let mut response = NetworkResponse::new(404, vec![1, 2, 3]);
    assert_eq!(response.status_code(), 404);
    assert_eq!(response.data(), &vec![1, 2, 3]);
    response.data_mut().push(4);
    assert_eq!(response.data(), &vec![1, 2, 3, 4]);
    assert_eq!(response.status_code(), 404);
}

#[test]
fn request_data_is_set_and_cleared() {
    let mut env = env();
    env.set_request_data(vec![1, 2, 3]);
    assert_eq!(env.request, vec![1, 2, 3]);
    env.clear_request_data();
    assert!(env.request.is_empty());
    assert_eq!(env.request_reader_id, 1);
}

#[test]
fn consecutive_request_ids_increase() {
    let mut env = env();
    let first = receive_request_data_id(&mut env);
    let second = receive_request_data_id(&mut env);
    let third = receive_request_data_id(&mut env);
    assert_eq!((first, second, third), (2, 3, 4));
    assert_eq!(env.request_reader_id, 4);
}

#[test]
fn the_request_id_wraps_to_one_and_never_to_zero() {
    let mut env = env();
    env.request_reader_id = u64::MAX;
    assert_eq!(receive_request_data_id(&mut env), 1);
    assert_eq!(receive_request_data_id(&mut env), 2);
}

#[test]
fn a_stale_request_id_is_refused() {
    let mut env = env();
    env.set_request_data(vec![1, 2, 3]);
    let stale = receive_request_data_id(&mut env);
    let id = receive_request_data_id(&mut env);
    let mut memory = vec![0u8; 8];
    assert_eq!(request_data_length(&env, stale), Err(HostError::AccessIdMismatch));
    assert_eq!(request_data_length(&env, 0), Err(HostError::AccessIdMismatch));
    assert_eq!(
        read_request_data(&mut env, &mut memory, stale, 0u32, 8u32),
        Err(HostError::AccessIdMismatch)
    );
    assert_eq!(set_response_is_error(&mut env, stale), Err(HostError::AccessIdMismatch));
    assert_eq!(env.request, vec![1, 2, 3]);
    assert!(!env.response.is_error);
    assert_eq!(memory, vec![0u8; 8]);
    assert_eq!(request_data_length(&env, id), Ok(3));
}

#[test]
fn the_request_body_is_read_in_pieces() {
    let mut env = env();
    env.set_request_data(vec![1, 2, 3, 4, 5]);
    let id = receive_request_data_id(&mut env);
    let mut memory = vec![0u8; 8];
    assert_eq!(request_data_length(&env, id), Ok(5));
    assert_eq!(read_request_data(&mut env, &mut memory, id, 1u32, 2u32), Ok(2));
    assert_eq!(memory, vec![0, 1, 2, 0, 0, 0, 0, 0]);
    assert_eq!(request_data_length(&env, id), Ok(3));
    assert_eq!(read_request_data(&mut env, &mut memory, id, 4u64, 4u64), Ok(3));
    assert_eq!(memory, vec![0, 1, 2, 0, 3, 4, 5, 0]);
    assert_eq!(request_data_length(&env, id), Ok(0));
    assert_eq!(read_request_data(&mut env, &mut memory, id, 0u32, 4u32), Ok(0));
}

#[test]
fn the_response_is_written_in_pieces() {
    let mut env = env();
    let memory = vec![10u8, 11, 12, 13];
    assert_eq!(write_response_data(&mut env, &memory, 0u32, 2u32), Ok(()));
    assert_eq!(write_response_data(&mut env, &memory, 2u64, 2u64), Ok(()));
    assert_eq!(env.response, ModuleResponse { is_error: false, data: vec![10, 11, 12, 13] });
    assert_eq!(write_response_data(&mut env, &memory, 3u32, 2u32), Err(HostError::MemoryAccess));
    assert_eq!(env.response.data, vec![10, 11, 12, 13]);
    let id = env.request_reader_id;
    assert_eq!(set_response_is_error(&mut env, id), Ok(()));
    assert_eq!(env.response, ModuleResponse { is_error: true, data: vec![10, 11, 12, 13] });
}

#[test]
fn a_panic_replaces_the_response_with_its_message() {
    let mut env = env();
    env.response.data = vec![1, 2, 3];
    let memory = b"..boom".to_vec();
    assert_eq!(lambda::rt::panic::panic(&mut env, &memory, 2u32, 4u32), Err(HostError::Panicked));
    assert_eq!(env.response, ModuleResponse { is_error: true, data: b"boom".to_vec() });
}

#[test]
fn a_panic_whose_message_cannot_be_read_leaves_the_response() {
    let mut env = env();
    env.response.data = vec![1, 2, 3];
    let memory = b"boom".to_vec();
    assert_eq!(lambda::rt::panic::panic(&mut env, &memory, 2u32, 4u32), Err(HostError::MemoryAccess));
    assert_eq!(env.response, ModuleResponse { is_error: false, data: vec![1, 2, 3] });
}

#[test]
fn debug_lines_are_text() {
    let memory = b"Hello, WASM!\xff".to_vec();
    assert_eq!(debug_str(&memory, 0u32, 12u32), Ok(String::from("Hello, WASM!")));
    assert_eq!(debug_str(&memory, 7u64, 4u64), Ok(String::from("WASM")));
    assert_eq!(debug_str(&memory, 0u32, 13u32), Err(HostError::InvalidUtf8));
    assert_eq!(debug_str(&memory, 0u32, 14u32), Err(HostError::MemoryAccess));
}

#[test]
fn the_sender_name_is_offered_from_the_offset_on() {
    let mut ctx: SdkContext<()> = SdkContext::with_vault_and_context((), ());
    ctx.set_sender(SdkUser::new(String::from("root")));
    let mut memory = vec![0u8; 8];
    assert_eq!(sender_username(&ctx, &mut memory, 1u32, 8u32, 0), Ok(4));
    assert_eq!(memory, vec![0, b'r', b'o', b'o', b't', 0, 0, 0]);
    let mut memory = vec![0u8; 8];
    assert_eq!(sender_username(&ctx, &mut memory, 0u32, 8u32, 2), Ok(2));
    assert_eq!(memory, vec![b'o', b't', 0, 0, 0, 0, 0, 0]);
    let mut memory = vec![0u8; 8];
    assert_eq!(sender_username(&ctx, &mut memory, 0u32, 1u32, 1), Ok(1));
    assert_eq!(memory[0], b'o');
    assert_eq!(sender_username(&ctx, &mut memory, 0u64, 8u64, 4), Ok(0));
    assert_eq!(sender_username(&ctx, &mut memory, 0u64, 8u64, 5), Ok(0));
    assert_eq!(sender_username(&ctx, &mut memory, 7u32, 8u32, 0), Err(HostError::MemoryAccess));
    assert_eq!(sender_username(&ctx, &mut memory, 7u32, 0u32, 0), Ok(0));
}

#[test]
fn the_sender_name_is_read_in_pieces_in_order() {
    let mut ctx: SdkContext<()> = SdkContext::with_vault_and_context((), ());
    ctx.set_sender(SdkUser::new(String::from("\u{e9}milie")));
    let length = sender_username_length(&ctx);
    assert_eq!(length, 7);
    let mut name = Vec::new();
    let mut offset = 0u64;
    while offset < length {
        let mut memory = vec![0u8; 3];
        let written: u32 = sender_username(&ctx, &mut memory, 0u32, 3u32, offset).unwrap();
        assert!(written > 0);
        name.extend_from_slice(&memory[..written as usize]);
        offset += u64::from(written);
    }
    assert_eq!(String::from_utf8(name).unwrap(), "\u{e9}milie");
}

#[test]
fn without_a_sender_nothing_is_offered() {
    let ctx: SdkContext<()> = SdkContext::with_vault_and_context((), ());
    let mut memory = vec![7u8; 4];
    assert_eq!(sender_username(&ctx, &mut memory, 0u32, 4u32, 0), Ok(0));
    assert_eq!(memory, vec![7u8; 4]);
    assert_eq!(sender_username_length(&ctx), 0);
}

#[test]
fn asking_for_the_sender_name_length_changes_nothing() {
    let mut ctx: SdkContext<()> = SdkContext::with_vault_and_context((), ());
    assert_eq!(sender_username_length(&ctx), 0);
    ctx.set_sender(SdkUser::new(String::from("root")));
    let id = receive_request_data_id(ctx.sdk_mut());
    assert_eq!(sender_username_length(&ctx), 4);
    assert_eq!(sender_username_length(&ctx), 4);
    assert_eq!(ctx.sdk().request_reader_id, id);
    assert_eq!(request_data_length(ctx.sdk(), id), Ok(0));
    ctx.set_sender(SdkUser::new(String::from("\u{e9}")));
    assert_eq!(sender_username_length(&ctx), 2);
}

#[test]
fn users_are_known_by_name() {
    let user = SdkUser::new(String::from("root"));
    assert_eq!(user.username(), "root");
    assert_eq!(user, SdkUser { username: String::from("root") });
}

#[test]
fn the_context_keeps_environment_and_sender() {
    let mut ctx: SdkContext<u8> = SdkContext::new(SdkEnv::new(3));
    assert!(ctx.sender().is_none());
    assert_eq!(ctx.sdk().vault_keeper.vault, 3);
    ctx.set_sender(SdkUser::new(String::from("a")));
    assert_eq!(ctx.sender().map(|user| user.username()), Some("a"));
    ctx.sdk_mut().set_request_data(vec![1]);
    assert_eq!(ctx.sdk().request, vec![1]);
    ctx.clear_sender();
    assert!(ctx.sender().is_none());
    assert_eq!(ctx.sdk().request, vec![1]);
}

#[test]
fn an_echo_is_a_success_with_the_same_body() {
    let mut ctx: SdkContext<()> = SdkContext::with_vault_and_context((), ());
    assert!(is_clean(&ctx));
    begin_execute(&mut ctx, vec![1, 2, 3], Some(SdkUser::new(String::from("root"))));
    assert_eq!(ctx.sdk().request, vec![1, 2, 3]);
    assert_eq!(ctx.sender().map(|user| user.username()), Some("root"));
    let id = receive_request_data_id(ctx.sdk_mut());
    let mut memory = vec![0u8; 16];
    assert_eq!(read_request_data(ctx.sdk_mut(), &mut memory, id, 4u32, 12u32), Ok(3));
    assert_eq!(write_response_data(ctx.sdk_mut(), &memory, 4u32, 3u32), Ok(()));
    assert!(!is_clean(&ctx));
    assert_eq!(
        finish_execute(&mut ctx, EntryOutcome::Returned),
        Some(Response::Success(vec![1, 2, 3]))
    );
    assert!(is_clean(&ctx));
    assert!(ctx.sender().is_none());
    assert!(ctx.sdk().request.is_empty());
}

#[test]
fn a_panic_is_an_error_with_the_message() {
    let mut ctx: SdkContext<()> = SdkContext::with_vault_and_context((), ());
    begin_execute(&mut ctx, vec![1, 2, 3], None);
    assert!(ctx.sender().is_none());
    let memory = b"boom".to_vec();
    assert_eq!(lambda::rt::panic::panic(ctx.sdk_mut(), &memory, 0u32, 4u32), Err(HostError::Panicked));
    assert_eq!(
        finish_execute(&mut ctx, EntryOutcome::Panicked),
        Some(Response::Error(b"boom".to_vec()))
    );
    assert!(is_clean(&ctx));
    assert!(ctx.sdk().request.is_empty());
}

#[test]
fn a_guest_that_marks_its_answer_as_error_is_an_error() {
    let mut ctx: SdkContext<()> = SdkContext::with_vault_and_context((), ());
    begin_execute(&mut ctx, vec![], None);
    let id = ctx.sdk().request_reader_id;
    assert_eq!(set_response_is_error(ctx.sdk_mut(), id), Ok(()));
    assert_eq!(write_response_data(ctx.sdk_mut(), &[5, 6], 0u32, 2u32), Ok(()));
    assert_eq!(finish_execute(&mut ctx, EntryOutcome::Returned), Some(Response::Error(vec![5, 6])));
}

#[test]
fn a_trap_leaves_everything_and_returns_nothing() {
    let mut ctx: SdkContext<()> = SdkContext::with_vault_and_context((), ());
    begin_execute(&mut ctx, vec![1, 2, 3], Some(SdkUser::new(String::from("root"))));
    assert_eq!(write_response_data(ctx.sdk_mut(), &[5, 6], 0u32, 2u32), Ok(()));
    assert_eq!(finish_execute(&mut ctx, EntryOutcome::Trapped), None);
    assert_eq!(ctx.sdk().request, vec![1, 2, 3]);
    assert_eq!(ctx.sdk().response.data, vec![5, 6]);
    assert!(ctx.sender().is_some());
}

#[test]
fn a_module_has_to_export_memory_and_entry() {
    let entry = Some(ExportKind::Func { params: 0, results: 0 });
    let memory = Some(ExportKind::Memory);
    assert_eq!(verify_exports(memory, entry), Ok(()));
    assert_eq!(verify_exports(None, entry), Err(StaticModuleVerificationError::NoMemoryExport));
    assert_eq!(verify_exports(None, None), Err(StaticModuleVerificationError::NoMemoryExport));
    assert_eq!(
        verify_exports(Some(ExportKind::Global), entry),
        Err(StaticModuleVerificationError::InvalidMemoryExport)
    );
    assert_eq!(
        verify_exports(entry, entry),
        Err(StaticModuleVerificationError::InvalidMemoryExport)
    );
    assert_eq!(verify_exports(memory, None), Err(StaticModuleVerificationError::NoEntryPoint));
    assert_eq!(
        verify_exports(memory, Some(ExportKind::Table)),
        Err(StaticModuleVerificationError::InvalidEntryPoint)
    );
    assert_eq!(
        verify_exports(memory, memory),
        Err(StaticModuleVerificationError::InvalidEntryPoint)
    );
    assert_eq!(
        verify_exports(memory, Some(ExportKind::Func { params: 1, results: 0 })),
        Err(StaticModuleVerificationError::EntryTakesParameters)
    );
    assert_eq!(
        verify_exports(memory, Some(ExportKind::Func { params: 1, results: 1 })),
        Err(StaticModuleVerificationError::EntryTakesParameters)
    );
    assert_eq!(
        verify_exports(memory, Some(ExportKind::Func { params: 0, results: 2 })),
        Err(StaticModuleVerificationError::EntryReturnsValue)
    );
    assert_eq!(
        StaticModuleVerificationError::NoEntryPoint.message(),
        "Module doesn't contain entry point exported as \"entry\"!"
    );
}
