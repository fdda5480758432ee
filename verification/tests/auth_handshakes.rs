use lambda::auth::login;
use lambda::auth::password_change;
use lambda::auth::registration;
use lambda::auth::registration::ConclusionFailure as RegistrationConclusionFailure;
use lambda::auth::state::{ten_minutes_from, EncryptedServerState};

const NOW: i128 = 1_700_000_000_000_000_000;

#[test]
fn only_a_username_known_to_be_free_is_registered() {
    assert_eq!(registration::admit_username(Some(false)), Ok(()));
    assert_eq!(
        registration::admit_username(Some(true)),
        Err(registration::InitiationFailure::UserExists)
    );
    assert_eq!(
        registration::admit_username(None),
        Err(registration::InitiationFailure::UserExists)
    );
}

#[test]
fn the_registration_checks_length_then_name_then_expiry() {
    assert_eq!(registration::check_conclusion("root", "root", 10, 9), Ok(()));
    assert_eq!(
        registration::check_conclusion("root", "admin", 10, 9),
        Err(RegistrationConclusionFailure::UsernameLength)
    );
    assert_eq!(
        registration::check_conclusion("root", "toor", 10, 11),
        Err(RegistrationConclusionFailure::UsernameMismatch)
    );
    assert_eq!(
        registration::check_conclusion("root", "root", 10, 10),
        Err(RegistrationConclusionFailure::Expired)
    );
}

#[test]
fn the_password_change_checks_the_expiry() {
    assert_eq!(password_change::check_conclusion(10, 9), Ok(()));
    assert_eq!(
        password_change::check_conclusion(10, 10),
        Err(password_change::ConclusionFailure::Expired)
    );
    assert_eq!(
        password_change::check_conclusion(10, 11),
        Err(password_change::ConclusionFailure::Expired)
    );
}

#[test]
fn registration_failures_map_to_status_and_tag() {
    let initiation = [
        (registration::InitiationFailure::MalformedRequest, 400, ""),
        (registration::InitiationFailure::UserExists, 500, "1"),
        (registration::InitiationFailure::Protocol, 400, "2"),
        (registration::InitiationFailure::SetupSerialization, 500, "2.5"),
        (registration::InitiationFailure::Sealing, 500, "3"),
        (registration::InitiationFailure::Serialization, 500, "4"),
    ];
    for (failure, status, tag) in initiation {
        assert_eq!(failure.status_code(), status);
        assert_eq!(failure.tag(), tag);
    }
    let conclusion = [
        (RegistrationConclusionFailure::MalformedRequest, 400, "1"),
        (RegistrationConclusionFailure::Unsealing, 400, "2"),
        (RegistrationConclusionFailure::UsernameLength, 400, "3"),
        (RegistrationConclusionFailure::UsernameMismatch, 400, "4"),
        (RegistrationConclusionFailure::Expired, 400, "5"),
        (RegistrationConclusionFailure::Database, 500, "7"),
    ];
    for (failure, status, tag) in conclusion {
        assert_eq!(failure.status_code(), status);
        assert_eq!(failure.tag(), tag);
    }
}

#[test]
fn password_change_failures_map_to_status_and_tag() {
    let initiation = [
        (password_change::InitiationFailure::MalformedRequest, 400, ""),
        (password_change::InitiationFailure::Protocol, 400, "2"),
        (password_change::InitiationFailure::SetupSerialization, 500, "2.5"),
        (password_change::InitiationFailure::Sealing, 500, "3"),
        (password_change::InitiationFailure::Serialization, 500, "4"),
    ];
    for (failure, status, tag) in initiation {
        assert_eq!(failure.status_code(), status);
        assert_eq!(failure.tag(), tag);
    }
    let conclusion = [
        (password_change::ConclusionFailure::MalformedRequest, 400, "1"),
        (password_change::ConclusionFailure::Unsealing, 400, "2"),
        (password_change::ConclusionFailure::Expired, 400, "5"),
        (password_change::ConclusionFailure::Database, 500, "7"),
    ];
    for (failure, status, tag) in conclusion {
        assert_eq!(failure.status_code(), status);
        assert_eq!(failure.tag(), tag);
    }
}

/// The state that the first step of a login seals, as far as the second step reads it.
fn sealed_state(user: &str, valid_until: i128) -> Vec<u8> {
    postcard::to_allocvec(&(user, valid_until)).unwrap()
}

fn conclude(
    envelope: EncryptedServerState<()>,
    key: &[u8],
    username: &str,
    now: i128,
) -> Result<(), login::ConclusionFailure> {
    let state = envelope.decrypt(key, username).map_err(|_| login::ConclusionFailure::Unsealing)?;
    let (user, valid_until): (String, i128) =
        postcard::from_bytes(&state).map_err(|_| login::ConclusionFailure::Unsealing)?;
    login::check_conclusion(username, &user, valid_until, now)
}

#[test]
fn a_handshake_concluded_in_time_passes() {
    let key = [1u8; 32];
    let valid_until = ten_minutes_from(NOW).unwrap();
    let envelope = EncryptedServerState::encrypt(sealed_state("root", valid_until), &key, "root")
        .unwrap();
    assert_eq!(conclude(envelope, &key, "root", NOW + 599_999_999_999), Ok(()));
}

#[test]
fn a_handshake_concluded_after_ten_minutes_is_a_bad_request() {
    let key = [1u8; 32];
    let valid_until = ten_minutes_from(NOW).unwrap();
    let seal = || {
        EncryptedServerState::encrypt(sealed_state("root", valid_until), &key, "root").unwrap()
    };
    let late = conclude(seal(), &key, "root", NOW + 600_000_000_000);
    assert_eq!(late, Err(login::ConclusionFailure::Expired));
    assert_eq!(late.unwrap_err().status_code(), 400);
    let later = conclude(seal(), &key, "root", NOW + 601_000_000_000);
    assert_eq!(later, Err(login::ConclusionFailure::Expired));
}

#[test]
fn a_state_sealed_for_one_user_is_a_bad_request_for_another() {
    let key = [1u8; 32];
    let valid_until = ten_minutes_from(NOW).unwrap();
    let seal = || {
        EncryptedServerState::encrypt(sealed_state("root", valid_until), &key, "root").unwrap()
    };
    let crossed = conclude(seal(), &key, "admin", NOW);
    assert_eq!(crossed, Err(login::ConclusionFailure::Unsealing));
    assert_eq!(crossed.unwrap_err().status_code(), 400);
    let crossed = conclude(seal(), &key, "toor", NOW);
    assert_eq!(crossed, Err(login::ConclusionFailure::Unsealing));
}
