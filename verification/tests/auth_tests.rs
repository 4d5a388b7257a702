use server::auth::{
    usable_srp_number, get_state, get_userid, guard_auth, logout, signup, srp_auth, srp_hello, AuthSession,
    SignupInsert, SrpSession, UserSrpRecord, SERVER_SECRET_LEN,
};
use server::common::{ActionResult, AppError};
use sha2::Sha256;
use srp::ClientG2048;

const USER_ID: u128 = 0x0123_4567_89ab_cdef_0123_4567_89ab_cdef;

fn logged_in(id: u128) -> AuthSession {
    AuthSession { user: Some(id), srp: None }
}

struct ClientSetup {
    username: &'static str,
    password: &'static str,
    salt: Vec<u8>,
    a: Vec<u8>,
}

fn setup() -> (ClientSetup, UserSrpRecord) {
    let setup = ClientSetup {
        username: "alice",
        password: "correct horse",
        salt: vec![7u8; 16],
        a: (0..64u8).collect(),
    };
    let client = ClientG2048::<Sha256>::new();
    let verifier =
        client.compute_verifier(setup.username.as_bytes(), setup.password.as_bytes(), &setup.salt);
    let record = UserSrpRecord { id: USER_ID, srp_salt: setup.salt.clone(), srp_verifier: verifier };
    (setup, record)
}

fn client_public(setup: &ClientSetup) -> Vec<u8> {
    ClientG2048::<Sha256>::new().compute_public_ephemeral(&setup.a)
}

#[test]
fn guard_passes_exactly_one_way() {
    let anonymous = AuthSession::new();
    assert_eq!(guard_auth(&anonymous, false).0, Ok(()));
    assert_eq!(guard_auth(&anonymous, true).0, Err(AppError::Forbidden));
    let user = logged_in(5);
    assert_eq!(guard_auth(&user, true).0, Ok(()));
    assert_eq!(guard_auth(&user, false).0, Err(AppError::Forbidden));
    assert_eq!(get_userid(&user), Some(5));
    assert_eq!(get_userid(&anonymous), None);
}

#[test]
fn signup_outcomes() {
    let anonymous = AuthSession::new();
    assert_eq!(signup(&anonymous, SignupInsert::Inserted).0, Ok(ActionResult { success: true }));
    assert_eq!(
        signup(&anonymous, SignupInsert::Failed { database_code: Some("23505".to_string()) }).0,
        Err(AppError::DuplicateUsername)
    );
    assert_eq!(
        signup(&anonymous, SignupInsert::Failed { database_code: Some("23502".to_string()) }).0,
        Ok(ActionResult { success: true })
    );
    assert_eq!(
        signup(&anonymous, SignupInsert::Failed { database_code: None }).0,
        Ok(ActionResult { success: true })
    );
    assert_eq!(signup(&logged_in(1), SignupInsert::Inserted).0, Err(AppError::Forbidden));
}

#[test]
fn full_srp_login_logs_the_user_in() {
    let (setup, record) = setup();
    let a_pub = client_public(&setup);
    let verifier_bytes = record.srp_verifier.clone();
    let mut session = AuthSession::new();
    let hello = srp_hello(&mut session, setup.username.to_string(), a_pub.clone(), Some(record));
    let hello = hello.0.unwrap();
    assert_eq!(hello.srp_salt, setup.salt);
    let pending: &SrpSession = session.srp.as_ref().unwrap();
    assert_eq!(session.user, None);
    assert_eq!(pending.userid, USER_ID);
    assert_eq!(pending.username, "alice");
    assert_eq!(pending.salt, setup.salt);
    assert_eq!(pending.verifier, verifier_bytes);
    assert_eq!(pending.client_public_key, a_pub);
    assert_eq!(pending.server_private_key.len(), SERVER_SECRET_LEN);
    assert_eq!(pending.server_public_key, hello.srp_server_public_key);
    let expected_b_pub = srp::ServerG2048::<Sha256>::new()
        .compute_public_ephemeral(&pending.server_private_key, &verifier_bytes);
    assert_eq!(hello.srp_server_public_key, expected_b_pub);

    let client = ClientG2048::<Sha256>::new();
    let client_verifier = client
        .process_reply(
            &setup.a,
            setup.username.as_bytes(),
            setup.password.as_bytes(),
            &hello.srp_salt,
            &hello.srp_server_public_key,
        )
        .unwrap();
    let answer = srp_auth(&mut session, client_verifier.proof()).unwrap();
    let server_proof = answer.0.unwrap().srp_evidence;
    assert!(client_verifier.verify_server(&server_proof).is_ok());
    assert_eq!(session.user, Some(USER_ID));
    assert!(session.srp.is_none());
    assert_eq!(guard_auth(&session, true).0, Ok(()));

    // The handshake is spent: the same proof cannot log in again.
    let replay = srp_auth(&mut session, client_verifier.proof()).unwrap();
    assert_eq!(replay.0.err(), Some(AppError::SRPNotStarted));
    assert_eq!(session.user, Some(USER_ID));
}

#[test]
fn wrong_password_is_refused_and_handshake_kept() {
    let (setup, record) = setup();
    let a_pub = client_public(&setup);
    let mut session = AuthSession::new();
    let hello = srp_hello(&mut session, setup.username.to_string(), a_pub, Some(record)).0.unwrap();
    let client = ClientG2048::<Sha256>::new();
    let wrong = client
        .process_reply(&setup.a, b"alice", b"wrong password", &hello.srp_salt, &hello.srp_server_public_key)
        .unwrap();
    let answer = srp_auth(&mut session, wrong.proof()).unwrap();
    let error = answer.0.err().unwrap();
    assert_eq!(error, AppError::InvalidCredential);
    assert_eq!(error.status_code(), 401);
    assert_eq!(session.user, None);
    assert!(session.srp.is_some());

    // The kept handshake still accepts the right proof.
    let right = client
        .process_reply(
            &setup.a,
            setup.username.as_bytes(),
            setup.password.as_bytes(),
            &hello.srp_salt,
            &hello.srp_server_public_key,
        )
        .unwrap();
    let answer = srp_auth(&mut session, right.proof()).unwrap();
    assert!(answer.0.is_ok());
    assert_eq!(session.user, Some(USER_ID));
}

#[test]
fn auth_without_hello_is_not_started() {
    let mut session = AuthSession::new();
    let answer = srp_auth(&mut session, b"anything").unwrap();
    assert_eq!(answer.0.err(), Some(AppError::SRPNotStarted));
    assert!(session.user.is_none() && session.srp.is_none());
}

#[test]
fn client_key_that_is_a_multiple_of_n_gets_no_answer() {
    let (setup, record) = setup();
    let mut session = AuthSession::new();
    // A = 0 is a multiple of N.
    let hello = srp_hello(&mut session, setup.username.to_string(), vec![0u8; 4], Some(record));
    assert!(hello.0.is_ok());
    assert!(srp_auth(&mut session, b"proof").is_none());
    assert!(session.srp.is_some());
    assert_eq!(session.user, None);
}

#[test]
fn hello_errors_leave_the_session() {
    let (setup, record) = setup();
    let mut session = logged_in(9);
    let r = srp_hello(&mut session, "alice".to_string(), client_public(&setup), Some(record));
    assert_eq!(r.0.err(), Some(AppError::Forbidden));
    assert_eq!(session.user, Some(9));
    let mut anonymous = AuthSession::new();
    let r = srp_hello(&mut anonymous, "nobody".to_string(), client_public(&setup), None);
    assert_eq!(r.0.err(), Some(AppError::UserNotFound));
    assert!(anonymous.srp.is_none());
}

#[test]
fn hello_restarts_a_pending_handshake() {
    let (setup, record) = setup();
    let (_, record2) = setup_other();
    let mut session = AuthSession::new();
    srp_hello(&mut session, "alice".to_string(), client_public(&setup), Some(record)).0.unwrap();
    srp_hello(&mut session, "bob".to_string(), client_public(&setup), Some(record2)).0.unwrap();
    let pending = session.srp.as_ref().unwrap();
    assert_eq!(pending.username, "bob");
    assert_eq!(pending.userid, 42);
}

fn setup_other() -> ((), UserSrpRecord) {
    ((), UserSrpRecord { id: 42, srp_salt: vec![1, 2], srp_verifier: vec![3, 4] })
}

#[test]
fn logout_clears_a_login_only() {
    let mut session = logged_in(3);
    assert_eq!(logout(&mut session).0, Ok(ActionResult { success: true }));
    assert!(session.user.is_none() && session.srp.is_none());
    assert_eq!(guard_auth(&session, false).0, Ok(()));
    assert_eq!(logout(&mut session).0, Err(AppError::Forbidden));
}

#[test]
fn state_reports_the_logged_in_user() {
    let anonymous = AuthSession::new();
    let r = get_state(&anonymous, None).0.ok().unwrap();
    assert!(r.user.is_none());
    let user = logged_in(4);
    let r = get_state(&user, Some("carol".to_string())).0.ok().unwrap();
    assert_eq!(r.user.unwrap().username, "carol");
    assert_eq!(get_state(&user, None).0.err(), Some(AppError::Internal));
}

#[test]
fn group_width_checks() {
    assert!(usable_srp_number(&[]));
    assert!(usable_srp_number(&[0xff; 256]));
    let mut wide = vec![0u8; 3];
    wide.extend_from_slice(&[0xff; 256]);
    assert!(usable_srp_number(&wide));
    wide[2] = 1;
    assert!(!usable_srp_number(&wide));

    let (setup, record) = setup();
    let mut session = AuthSession::new();
    srp_hello(&mut session, setup.username.to_string(), client_public(&setup), Some(record)).0.unwrap();
    assert!(session.pending_handshake_checked());
    session.srp.as_mut().unwrap().client_public_key = vec![1u8; 257];
    assert!(!session.pending_handshake_checked());
    assert!(AuthSession::new().pending_handshake_checked());
    session.srp.as_mut().unwrap().client_public_key = vec![1u8; 4];
    assert!(session.pending_handshake_checked());
    session.srp.as_mut().unwrap().server_private_key = vec![0u8; 0x2000_0000];
    assert!(!session.pending_handshake_checked());
}

#[test]
fn proof_binds_username_and_salt() {
    let (setup, record) = setup();
    let a_pub = client_public(&setup);
    let client = ClientG2048::<Sha256>::new();
    for change in 0..3 {
        let mut session = AuthSession::new();
        let hello = srp_hello(&mut session, "alice".to_string(), a_pub.clone(), Some(record_copy(&record)))
            .0
            .unwrap();
        let proof = client
            .process_reply(
                &setup.a,
                setup.username.as_bytes(),
                setup.password.as_bytes(),
                &hello.srp_salt,
                &hello.srp_server_public_key,
            )
            .unwrap();
        let pending = session.srp.as_mut().unwrap();
        match change {
            0 => pending.username = "alicf".to_string(),
            1 => pending.salt[0] ^= 1,
            _ => {}
        }
        let answer = srp_auth(&mut session, proof.proof()).unwrap();
        if change < 2 {
            assert_eq!(answer.0.err(), Some(AppError::InvalidCredential));
            assert!(session.user.is_none());
        } else {
            assert!(answer.0.is_ok());
            assert_eq!(session.user, Some(USER_ID));
        }
    }
}

fn record_copy(r: &UserSrpRecord) -> UserSrpRecord {
    UserSrpRecord { id: r.id, srp_salt: r.srp_salt.clone(), srp_verifier: r.srp_verifier.clone() }
}
