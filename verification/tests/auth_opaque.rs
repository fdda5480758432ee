use argon2::Argon2;
use aes_gcm::aead::{AeadInPlace, KeyInit};
use lambda::auth::login::{check_conclusion, issue_token, ConclusionFailure};
use lambda::auth::middleware::{authenticate, User};
use lambda::auth::state::{ten_minutes_from, EncryptedServerState};
use opaque_ke::key_exchange::tripledh::TripleDh;
use opaque_ke::{
    CipherSuite, ClientLogin, ClientLoginFinishParameters, ClientRegistration,
    ClientRegistrationFinishParameters, Identifiers, Ristretto255, ServerLogin,
    ServerLoginStartParameters, ServerRegistration, ServerSetup,
};
use rand_core::OsRng;

const NOW: i128 = 1_700_000_000_000_000_000;

struct Suite;

impl CipherSuite for Suite {
    type OprfCs = Ristretto255;
    type KeGroup = Ristretto255;
    type KeyExchange = TripleDh;
    type Ksf = Argon2<'static>;
}

fn register(setup: &ServerSetup<Suite>, username: &str, password: &[u8]) -> ServerRegistration<Suite> {
    let start = ClientRegistration::<Suite>::start(&mut OsRng, password).unwrap();
    let response =
        ServerRegistration::<Suite>::start(setup, start.message, username.as_bytes()).unwrap();
    let finish = start
        .state
        .finish(
            &mut OsRng,
            password,
            response.message,
            ClientRegistrationFinishParameters::new(Identifiers::default(), None),
        )
        .unwrap();
    ServerRegistration::<Suite>::finish(finish.message)
}

#[test]
fn an_administrator_registers_logs_in_and_gets_a_valid_token() {
    let server_key = [3u8; 32];
    let signing_key = [4u8; 32];
    let verifying_key = ed25519_dalek::SigningKey::from_bytes(&signing_key).verifying_key().to_bytes();
    let setup = ServerSetup::<Suite>::new(&mut OsRng);
    let password_file = register(&setup, "root", b"hunter2");

    // The first step of the login: the server seals what it has to remember.
    let client_start = ClientLogin::<Suite>::start(&mut OsRng, b"hunter2").unwrap();
    let server_start = ServerLogin::start(
        &mut OsRng,
        &setup,
        Some(password_file),
        client_start.message,
        b"root",
        ServerLoginStartParameters::default(),
    )
    .unwrap();
    let state = postcard::to_allocvec(&(&server_start.state, "root", ten_minutes_from(NOW).unwrap()))
        .unwrap();
    let envelope = EncryptedServerState::<()>::encrypt(state, &server_key, "root").unwrap();
    let client_finish = client_start
        .state
        .finish(
            b"hunter2",
            server_start.message,
            ClientLoginFinishParameters::new(None, Identifiers::default(), None),
        )
        .unwrap();

    // The second step: the server opens the state, checks it and issues the token.
    let opened = envelope.decrypt(&server_key, "root").unwrap();
    let (server_login, user, valid_until): (ServerLogin<Suite>, String, i128) =
        postcard::from_bytes(&opened).unwrap();
    assert_eq!(check_conclusion("root", &user, valid_until, NOW + 1), Ok(()));
    let session_key = server_login.finish(client_finish.message).unwrap().session_key;
    assert_eq!(session_key, client_finish.session_key);
    let token = issue_token(&user, NOW + 1, &signing_key, session_key.as_slice(), "root").unwrap();

    // The client decrypts the token with the key derived from its session key.
    let mut key = [0u8; 32];
    hkdf::Hkdf::<sha2::Sha512_256>::new(None, client_finish.session_key.as_slice())
        .expand(b"root", &mut key)
        .unwrap();
    let mut text = token.token_bytes;
    aes_gcm::Aes256Gcm::new((&key).into())
        .decrypt_in_place_detached((&token.nonce).into(), &[], &mut text, (&token.tag).into())
        .unwrap();
    let header = String::from_utf8(text).unwrap();
    assert_eq!(authenticate(&header, &verifying_key, NOW + 2), Some(User::new(String::from("root"))));
    assert_eq!(authenticate(&header, &verifying_key, NOW + 1 + 600_000_000_000), None);
}

#[test]
fn a_login_concluded_too_late_or_for_another_user_is_refused() {
    let server_key = [3u8; 32];
    let setup = ServerSetup::<Suite>::new(&mut OsRng);
    let password_file = register(&setup, "root", b"hunter2");
    let client_start = ClientLogin::<Suite>::start(&mut OsRng, b"hunter2").unwrap();
    let server_start = ServerLogin::start(
        &mut OsRng,
        &setup,
        Some(password_file),
        client_start.message,
        b"root",
        ServerLoginStartParameters::default(),
    )
    .unwrap();
    let valid_until = ten_minutes_from(NOW).unwrap();
    let state = postcard::to_allocvec(&(&server_start.state, "root", valid_until)).unwrap();
    let seal = || EncryptedServerState::<()>::encrypt(state.clone(), &server_key, "root").unwrap();
    assert!(seal().decrypt(&server_key, "admin").is_err());
    let opened = seal().decrypt(&server_key, "root").unwrap();
    let (_, user, valid_until): (ServerLogin<Suite>, String, i128) =
        postcard::from_bytes(&opened).unwrap();
    assert_eq!(
        check_conclusion("root", &user, valid_until, NOW + 600_000_000_001),
        Err(ConclusionFailure::Expired)
    );
    assert_eq!(
        check_conclusion("toor", &user, valid_until, NOW),
        Err(ConclusionFailure::UsernameMismatch)
    );
}
