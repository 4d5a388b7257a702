//! Accounts and login sessions.
//!
//! A client logs in with SRP-6a as RFC 5054 describes it, over the 2048-bit
//! group with SHA-256; the client's proof binds the user's name and salt.
//! `hello` sends the client's public ephemeral
//! value and answers the salt and the server's public ephemeral value; `auth`
//! sends the client's proof and answers the server's proof. Between the two
//! the session holds the pending handshake; after a successful `auth` it
//! holds the user's id and nothing else.

use crate::common::{ActionResult, AppError, AppResult};
use rand::rngs::OsRng;
use rand::TryRngCore;
use sha2::Sha256;
use srp::ServerG2048;
use vstd::prelude::*;

verus! {

// ---------------------------------------------------------------------------
// SRP-6a (RFC 5054) over its 2048-bit group with SHA-256
// ---------------------------------------------------------------------------

/// The number that a big-endian byte string denotes.
pub open spec fn big_endian_value(bytes: Seq<u8>) -> nat
    decreases bytes.len(),
{
    if bytes.len() == 0 {
        0
    } else {
        big_endian_value(bytes.drop_last()) * 256 + bytes.last() as nat
    }
}

/// The prime modulus N of the 2048-bit group of RFC 5054.
pub open spec fn srp_group_modulus() -> nat {
    0xac6bdb41324a9a9bf166de5e1389582faf72b6651987ee07fc3192943db56050a37329cbb4a099ed8193e0757767a13dd52312ab4b03310dcd7f48a9da04fd50e8083969edb767b0cf6095179a163ab3661a05fbd5faaae82918a9962f0b93b855f97993ec975eeaa80d740adbf4ff747359d041d5c33ea71d281e446b14773bca97b43a23fb801676bd207a436c6481f1d2b9078717461a5b9d32e688f87748544523b524b0d57d5ea77a2775d2ecfa032cfbdbf52fb3786160279004e57ae6af874e7303ce53299ccc041c7bc308d82a5698f3a8d0c38271ae35f8e9dbfbb694b5c803d89f7ae435de236d525f54759b65e372fcd68ef20fa7111f9e4aff73nat
}

/// The byte length of N: the group's numbers have at most 2048 bits.
pub const SRP_GROUP_BYTES: usize = 256;

/// The big-endian number has at most 2048 bits: every byte before the last
/// 256 is zero.
pub open spec fn srp_fits_group(bytes: Seq<u8>) -> bool {
    forall|i: int| 0 <= i < bytes.len() - SRP_GROUP_BYTES ==> #[trigger] bytes[i] == 0u8
}

/// The SRP server refuses a client public value A that is a multiple of N.
pub open spec fn srp_rejects_client_key(client_public_key: Seq<u8>) -> bool {
    big_endian_value(client_public_key) % srp_group_modulus() == 0
}

/// The longest byte string that the SRP crate turns into a number: it counts
/// the bits of a string in a `u32`, which overflows from 2^29 bytes on.
pub const SRP_MAX_INPUT_BYTES: usize = 0x1fff_ffff;

/// The SRP crate can read the byte string as a number.
pub open spec fn srp_input_len_ok(bytes: Seq<u8>) -> bool {
    bytes.len() <= SRP_MAX_INPUT_BYTES
}

/// The byte string can be read as a number and that number fits the group.
pub open spec fn srp_usable_number(bytes: Seq<u8>) -> bool {
    srp_input_len_ok(bytes) && srp_fits_group(bytes)
}

/// The SRP server processes the reply of a handshake with secret `b`,
/// verifier `v` and client public value `a_pub` without panicking: all three
/// can be read as numbers, `v` fits the group, and A either has at most 256
/// bytes or is a multiple of N that fits the group (which is refused before
/// its length matters).
pub open spec fn srp_reply_in_range(b: Seq<u8>, v: Seq<u8>, a_pub: Seq<u8>) -> bool {
    &&& srp_input_len_ok(b)
    &&& srp_usable_number(v)
    &&& srp_input_len_ok(a_pub)
    &&& (a_pub.len() <= SRP_GROUP_BYTES || (srp_fits_group(a_pub) && srp_rejects_client_key(
        a_pub,
    )))
}

/// Tells whether a big-endian byte string can be read as a number of the
/// group: it is not too long to read, and its value fits the group.
pub fn usable_srp_number(bytes: &[u8]) -> (b: bool)
    ensures
        b == srp_usable_number(bytes@),
{
    let n = bytes.len();
    if n > SRP_MAX_INPUT_BYTES {
        return false;
    }
    if n <= SRP_GROUP_BYTES {
        return true;
    }
    let leading = n - SRP_GROUP_BYTES;
    let mut i: usize = 0;
    while i < leading
        invariant
            n == bytes@.len(),
            n <= SRP_MAX_INPUT_BYTES,
            leading == n - SRP_GROUP_BYTES,
            i <= leading,
            forall|j: int| 0 <= j < i ==> #[trigger] bytes@[j] == 0u8,
        decreases leading - i,
    {
        if bytes[i] != 0 {
            return false;
        }
        i = i + 1;
    }
    true
}

/// The server's public ephemeral value B for the secret `b` and the password
/// verifier `v`.
pub uninterp spec fn srp_public_ephemeral(b: Seq<u8>, v: Seq<u8>) -> Seq<u8>;

/// The two proofs of RFC 5054 for an accepted handshake of the user
/// `username` with salt `salt`, secret `b`, verifier `v` and client public
/// value A: the one expected from the client (M1, which hashes in the user's
/// name and salt) and the one the server answers with (M2).
pub uninterp spec fn srp_reply_proofs(
    username: Seq<char>,
    salt: Seq<u8>,
    b: Seq<u8>,
    v: Seq<u8>,
    a_pub: Seq<u8>,
) -> (Seq<u8>, Seq<u8>);

/// The proof M1 that the server expects from the client.
pub open spec fn srp_client_evidence(
    username: Seq<char>,
    salt: Seq<u8>,
    b: Seq<u8>,
    v: Seq<u8>,
    a_pub: Seq<u8>,
) -> Seq<u8> {
    srp_reply_proofs(username, salt, b, v, a_pub).0
}

/// The proof M2 that the server answers with.
pub open spec fn srp_server_evidence(
    username: Seq<char>,
    salt: Seq<u8>,
    b: Seq<u8>,
    v: Seq<u8>,
    a_pub: Seq<u8>,
) -> Seq<u8> {
    srp_reply_proofs(username, salt, b, v, a_pub).1
}

/// Calls `ServerG2048::<Sha256>::new().compute_public_ephemeral(b, v)`.
/// Claims that the result is the named value B of `b` and `v`. It panics
/// where `v` has more than 2048 bits (resizing it to the group's width), and
/// where `b` or `v` has 2^29 bytes or more (counting its bits in a `u32`);
/// the `requires` rules these out.
#[verifier::external_body]
fn srp_compute_public_ephemeral(b: &[u8], v: &[u8]) -> (b_pub: Vec<u8>)
    requires
        srp_input_len_ok(b@),
        srp_usable_number(v@),
    ensures
        b_pub@ == srp_public_ephemeral(b@, v@),
{
    ServerG2048::<Sha256>::new().compute_public_ephemeral(b, v)
}

/// Calls `ServerG2048::<Sha256>::new().process_reply(username, salt, b, v,
/// a_pub)` (the RFC 5054 handshake, which hashes the user's name and salt
/// into M1), then `verify_client(evidence)` and `proof()` of the verifier it
/// gives. Claims what the source of these shows: `process_reply` fails
/// exactly when A is a multiple of N (`None`); `verify_client` accepts
/// exactly the bytes of the expected client proof M1 (a constant-time
/// comparison that fails on another length; `Some(None)` where it refuses);
/// `proof` is the server proof M2. M1 and M2 are the named proofs of these
/// five values. `process_reply` panics where `v` or A has more than 2048
/// bits, where an A that it accepts is longer than 256 bytes, and where b,
/// `v` or A has 2^29 bytes or more (counting its bits in a `u32`); the
/// `requires` rules these out.
#[verifier::external_body]
fn srp_check_client_proof(
    username: &str,
    salt: &[u8],
    b: &[u8],
    v: &[u8],
    a_pub: &[u8],
    evidence: &[u8],
) -> (r: Option<Option<Vec<u8>>>)
    requires
        srp_reply_in_range(b@, v@, a_pub@),
    ensures
        r is None <==> srp_rejects_client_key(a_pub@),
        r matches Some(answer) ==> (answer is Some <==> evidence@ == srp_reply_proofs(
            username@,
            salt@,
            b@,
            v@,
            a_pub@,
        ).0),
        r matches Some(Some(proof)) ==> proof@ == srp_reply_proofs(
            username@,
            salt@,
            b@,
            v@,
            a_pub@,
        ).1,
{
    match ServerG2048::<Sha256>::new().process_reply(username.as_bytes(), salt, b, v, a_pub) {
        Err(_) => None,
        Ok(verifier) => match verifier.verify_client(evidence) {
            Ok(_) => Some(Some(verifier.proof().to_vec())),
            Err(_) => Some(None),
        },
    }
}

/// Fills `len` bytes from `OsRng::try_fill_bytes`, the operating system's
/// generator. Only the length is claimed, and only where the generator
/// delivered (`Some`): the bytes are chance, and so is a failure of the
/// operating system to give randomness (`None`).
#[verifier::external_body]
fn random_bytes(len: usize) -> (bytes: Option<Vec<u8>>)
    ensures
        bytes matches Some(b) ==> b@.len() == len,
{
    let mut buf = vec![0u8; len];
    match OsRng.try_fill_bytes(&mut buf) {
        Ok(()) => Some(buf),
        Err(_) => None,
    }
}

// ---------------------------------------------------------------------------
// The login session
// ---------------------------------------------------------------------------

/// The length of the server's secret ephemeral value b.
pub const SERVER_SECRET_LEN: usize = 64;

/// A handshake between `hello` and `auth`.
pub struct SrpSession {
    pub userid: u128,
    pub username: String,
    pub salt: Vec<u8>,
    pub verifier: Vec<u8>,
    pub client_public_key: Vec<u8>,
    pub server_private_key: Vec<u8>,
    pub server_public_key: Vec<u8>,
}

pub struct SrpSessionView {
    pub userid: u128,
    pub username: Seq<char>,
    pub salt: Seq<u8>,
    pub verifier: Seq<u8>,
    pub client_public_key: Seq<u8>,
    pub server_private_key: Seq<u8>,
    pub server_public_key: Seq<u8>,
}

impl View for SrpSession {
    type V = SrpSessionView;

    open spec fn view(&self) -> SrpSessionView {
        SrpSessionView {
            userid: self.userid,
            username: self.username@,
            salt: self.salt@,
            verifier: self.verifier@,
            client_public_key: self.client_public_key@,
            server_private_key: self.server_private_key@,
            server_public_key: self.server_public_key@,
        }
    }
}

/// What a client's session holds: the id of the user it is logged in as,
/// and a pending handshake.
pub struct AuthSession {
    pub user: Option<u128>,
    pub srp: Option<SrpSession>,
}

pub struct AuthSessionView {
    pub user: Option<u128>,
    pub srp: Option<SrpSessionView>,
}

impl View for AuthSession {
    type V = AuthSessionView;

    open spec fn view(&self) -> AuthSessionView {
        AuthSessionView {
            user: self.user,
            srp: match self.srp {
                Some(s) => Some(s@),
                None => None,
            },
        }
    }
}

/// The session of a client that has done nothing yet.
pub open spec fn empty_session() -> AuthSessionView {
    AuthSessionView { user: None, srp: None }
}

/// The session of a client logged in as `user`.
pub open spec fn logged_in_session(user: u128) -> AuthSessionView {
    AuthSessionView { user: Some(user), srp: None }
}

impl AuthSession {
    pub fn new() -> (s: AuthSession)
        ensures
            s@ == empty_session(),
    {
        AuthSession { user: None, srp: None }
    }
}

/// The id of the user the session is logged in as.
pub fn get_userid(session: &AuthSession) -> (id: Option<u128>)
    ensures
        id == session@.user,
{
    session.user
}

/// A request that needs the client to be logged in (`logged_in`) or not to
/// be passes; any other is refused with `Forbidden`.
pub open spec fn guard_spec(s: AuthSessionView, logged_in: bool) -> Result<(), AppError> {
    if (s.user is Some) == logged_in {
        Ok(())
    } else {
        Err(AppError::Forbidden)
    }
}

pub fn guard_auth(session: &AuthSession, logged_in: bool) -> (r: AppResult<()>)
    ensures
        r.0 == guard_spec(session@, logged_in),
{
    let has_logged_in = get_userid(session).is_some();
    if logged_in != has_logged_in {
        return AppResult::err(AppError::Forbidden);
    }
    AppResult::ok(())
}

// ---------------------------------------------------------------------------
// Sign-up
// ---------------------------------------------------------------------------

/// The error code of PostgreSQL for a unique constraint that an insert broke.
pub open spec fn unique_violation_code() -> Seq<char> {
    "23505"@
}

/// How the insert of a new user ended.
pub enum SignupInsert {
    Inserted,
    /// The database refused it; `database_code` is PostgreSQL's error code
    /// where the failure came from the database itself.
    Failed { database_code: Option<String> },
}

/// The answer to a sign-up: refused when logged in, `DuplicateUsername` when
/// the insert broke the unique name, and success otherwise (other failures
/// of the insert are not reported).
pub open spec fn signup_spec(s: AuthSessionView, insert: SignupInsert) -> Result<bool, AppError> {
    if s.user is Some {
        Err(AppError::Forbidden)
    } else {
        match insert {
            SignupInsert::Failed { database_code: Some(code) } => {
                if code@ == unique_violation_code() {
                    Err(AppError::DuplicateUsername)
                } else {
                    Ok(true)
                }
            },
            _ => Ok(true),
        }
    }
}

/// Answers `POST /auth/signup` from the session and the outcome of the insert
/// (which is made only where the guard passes).
pub fn signup(session: &AuthSession, insert: SignupInsert) -> (r: AppResult<ActionResult>)
    ensures
        signup_spec(session@, insert) == match r.0 {
            Ok(a) => Ok::<bool, AppError>(a.success),
            Err(e) => Err(e),
        },
{
    let guard = guard_auth(session, false);
    if let Err(e) = guard.0 {
        return AppResult::err(e);
    }
    match &insert {
        SignupInsert::Failed { database_code: Some(code) } => {
            let expected = "23505".to_owned();
            proof {
                reveal_strlit("23505");
            }
            if code.eq(&expected) {
                return AppResult::err(AppError::DuplicateUsername);
            }
        },
        _ => {},
    }
    AppResult::ok(ActionResult::success())
}

// ---------------------------------------------------------------------------
// The SRP handshake
// ---------------------------------------------------------------------------

/// The salt and verifier of the user who asks to log in.
pub struct UserSrpRecord {
    pub id: u128,
    pub srp_salt: Vec<u8>,
    pub srp_verifier: Vec<u8>,
}

pub struct UserSrpRecordView {
    pub id: u128,
    pub srp_salt: Seq<u8>,
    pub srp_verifier: Seq<u8>,
}

impl View for UserSrpRecord {
    type V = UserSrpRecordView;

    open spec fn view(&self) -> UserSrpRecordView {
        UserSrpRecordView { id: self.id, srp_salt: self.srp_salt@, srp_verifier: self.srp_verifier@ }
    }
}

pub struct SrpHelloResponse {
    pub srp_salt: Vec<u8>,
    pub srp_server_public_key: Vec<u8>,
}

/// The step of `hello` with the server secret `b`: the session afterwards and
/// the answer (salt and B). A logged-in client is refused, an unknown user
/// is answered `UserNotFound`; in both cases the session stays as it was.
/// Otherwise the session holds the new handshake alone.
pub open spec fn hello_step(
    s: AuthSessionView,
    username: Seq<char>,
    a_pub: Seq<u8>,
    record: Option<UserSrpRecordView>,
    b: Seq<u8>,
) -> (AuthSessionView, Result<(Seq<u8>, Seq<u8>), AppError>) {
    if s.user is Some {
        (s, Err(AppError::Forbidden))
    } else {
        match record {
            None => (s, Err(AppError::UserNotFound)),
            Some(rec) => {
                let b_pub = srp_public_ephemeral(b, rec.srp_verifier);
                (
                    AuthSessionView {
                        user: None,
                        srp: Some(
                            SrpSessionView {
                                userid: rec.id,
                                username,
                                salt: rec.srp_salt,
                                verifier: rec.srp_verifier,
                                client_public_key: a_pub,
                                server_private_key: b,
                                server_public_key: b_pub,
                            },
                        ),
                    },
                    Ok((rec.srp_salt, b_pub)),
                )
            },
        }
    }
}

/// A `hello` that succeeded: the client was not logged in, the user was
/// found, the answer is the user's salt and the value B of the secret now
/// kept in the session, and the session holds exactly the new handshake for
/// that user, with the name, client value, salt and verifier given.
pub open spec fn hello_succeeded(
    s: AuthSessionView,
    s1: AuthSessionView,
    username: Seq<char>,
    a_pub: Seq<u8>,
    record: Option<UserSrpRecordView>,
    answer: Result<(Seq<u8>, Seq<u8>), AppError>,
) -> bool {
    &&& s.user is None
    &&& s1.user is None
    &&& record matches Some(rec)
    &&& s1.srp matches Some(p)
    &&& p.userid == rec.id
    &&& p.username == username
    &&& p.client_public_key == a_pub
    &&& p.salt == rec.srp_salt
    &&& p.verifier == rec.srp_verifier
    &&& p.server_public_key == srp_public_ephemeral(p.server_private_key, rec.srp_verifier)
    &&& answer == Ok::<(Seq<u8>, Seq<u8>), AppError>((rec.srp_salt, p.server_public_key))
}

pub open spec fn hello_answer(r: Result<SrpHelloResponse, AppError>) -> Result<(Seq<u8>, Seq<u8>), AppError> {
    match r {
        Ok(resp) => Ok((resp.srp_salt@, resp.srp_server_public_key@)),
        Err(e) => Err(e),
    }
}

pub open spec fn record_view(record: Option<UserSrpRecord>) -> Option<UserSrpRecordView> {
    match record {
        Some(rec) => Some(rec@),
        None => None,
    }
}

fn copy_bytes(v: &Vec<u8>) -> (c: Vec<u8>)
    ensures
        c@ == v@,
{
    let c = v.clone();
    assert(c@ =~= v@);
    c
}

/// `hello` with a given server secret `secret`.
pub fn srp_hello_with_secret(
    session: &mut AuthSession,
    username: String,
    client_public_key: Vec<u8>,
    record: Option<UserSrpRecord>,
    secret: Vec<u8>,
) -> (r: AppResult<SrpHelloResponse>)
    requires
        srp_input_len_ok(secret@),
        record matches Some(rec) ==> srp_usable_number(rec.srp_verifier@),
    ensures
        (final(session)@, hello_answer(r.0)) == hello_step(
            old(session)@,
            username@,
            client_public_key@,
            record_view(record),
            secret@,
        ),
{
    let guard = guard_auth(session, false);
    if let Err(e) = guard.0 {
        return AppResult::err(e);
    }
    let rec = match record {
        Some(rec) => rec,
        None => {
            return AppResult::err(AppError::UserNotFound);
        },
    };
    let b_pub = srp_compute_public_ephemeral(secret.as_slice(), rec.srp_verifier.as_slice());
    let response = SrpHelloResponse {
        srp_salt: copy_bytes(&rec.srp_salt),
        srp_server_public_key: copy_bytes(&b_pub),
    };
    session.user = None;
    session.srp = Some(
        SrpSession {
            userid: rec.id,
            username,
            salt: rec.srp_salt,
            verifier: rec.srp_verifier,
            client_public_key,
            server_private_key: secret,
            server_public_key: b_pub,
        },
    );
    AppResult::ok(response)
}

/// Answers `POST /auth/hello` from the session, the request and the user's
/// record (`None` where the lookup failed). The server secret b is 64 random
/// bytes, kept in the session; where the operating system gives no
/// randomness the answer is `Internal` and the session stays as it was. The
/// stored verifier must be a usable number of the group.
pub fn srp_hello(
    session: &mut AuthSession,
    username: String,
    client_public_key: Vec<u8>,
    record: Option<UserSrpRecord>,
) -> (r: AppResult<SrpHelloResponse>)
    requires
        record matches Some(rec) ==> srp_usable_number(rec.srp_verifier@),
    ensures
        r.0 matches Err(AppError::Internal) ==> final(session)@ == old(session)@ && old(
            session,
        )@.user is None && record is Some,
        !(r.0 matches Err(AppError::Internal)) ==> exists|b: Seq<u8>|
            #![trigger hello_step(old(session)@, username@, client_public_key@, record_view(record), b)]
            b.len() == SERVER_SECRET_LEN && (final(session)@, hello_answer(r.0)) == hello_step(
                old(session)@,
                username@,
                client_public_key@,
                record_view(record),
                b,
            ),
        r.0 is Ok ==> (final(session)@.srp matches Some(p) && p.server_private_key.len()
            == SERVER_SECRET_LEN),
        r.0 is Ok ==> hello_succeeded(
            old(session)@,
            final(session)@,
            username@,
            client_public_key@,
            record_view(record),
            hello_answer(r.0),
        ),
{
    let ghost unused_secret = Seq::new(SERVER_SECRET_LEN as nat, |i: int| 0u8);
    let guard = guard_auth(session, false);
    if let Err(e) = guard.0 {
        assert(hello_step(session@, username@, client_public_key@, record_view(record), unused_secret).1
            == Err::<(Seq<u8>, Seq<u8>), AppError>(e));
        return AppResult::err(e);
    }
    if record.is_none() {
        assert(hello_step(session@, username@, client_public_key@, record_view(record), unused_secret).1
            == Err::<(Seq<u8>, Seq<u8>), AppError>(AppError::UserNotFound));
        return AppResult::err(AppError::UserNotFound);
    }
    match random_bytes(SERVER_SECRET_LEN) {
        None => AppResult::err(AppError::Internal),
        Some(secret) => srp_hello_with_secret(session, username, client_public_key, record, secret),
    }
}

pub struct SrpAuthResponse {
    pub srp_evidence: Vec<u8>,
}

/// The step of `auth` with the client's proof `evidence`. `None` where the
/// pending handshake's A is refused by the SRP server (a request that fails
/// without an answer). Without a pending handshake the answer is
/// `SRPNotStarted`; a wrong proof is answered `InvalidCredential` and keeps
/// the handshake; a right one logs the session in as the handshake's user
/// and answers the server's proof.
pub open spec fn auth_step(s: AuthSessionView, evidence: Seq<u8>) -> Option<
    (AuthSessionView, Result<Seq<u8>, AppError>),
> {
    match s.srp {
        None => Some((s, Err(AppError::SRPNotStarted))),
        Some(p) => {
            if srp_rejects_client_key(p.client_public_key) {
                None
            } else if evidence == srp_client_evidence(
                p.username,
                p.salt,
                p.server_private_key,
                p.verifier,
                p.client_public_key,
            ) {
                Some(
                    (
                        logged_in_session(p.userid),
                        Ok(
                            srp_server_evidence(
                                p.username,
                                p.salt,
                                p.server_private_key,
                                p.verifier,
                                p.client_public_key,
                            ),
                        ),
                    ),
                )
            } else {
                Some((s, Err(AppError::InvalidCredential)))
            }
        },
    }
}

pub open spec fn auth_answer(r: Result<SrpAuthResponse, AppError>) -> Result<Seq<u8>, AppError> {
    match r {
        Ok(resp) => Ok(resp.srp_evidence@),
        Err(e) => Err(e),
    }
}

/// The pending handshake, if any, is one that the SRP server can process.
pub open spec fn pending_handshake_in_range(s: AuthSessionView) -> bool {
    s.srp matches Some(p) ==> srp_reply_in_range(
        p.server_private_key,
        p.verifier,
        p.client_public_key,
    )
}

impl AuthSession {
    /// Tells whether the pending handshake, if any, has a secret that can be
    /// read as a number, a verifier that is a usable number of the group and
    /// a client public value of at most 256 bytes: then `auth` can process
    /// it.
    pub fn pending_handshake_checked(&self) -> (b: bool)
        ensures
            b == (self@.srp matches Some(p) ==> (srp_input_len_ok(p.server_private_key)
                && srp_usable_number(p.verifier) && p.client_public_key.len()
                <= SRP_GROUP_BYTES)),
            b ==> pending_handshake_in_range(self@),
    {
        match &self.srp {
            None => true,
            Some(p) => p.server_private_key.len() <= SRP_MAX_INPUT_BYTES && usable_srp_number(
                p.verifier.as_slice(),
            ) && p.client_public_key.len() <= SRP_GROUP_BYTES,
        }
    }
}

/// Answers `POST /auth/auth` from the session and the client's proof.
/// `None` where the SRP server refuses the pending handshake's A; the request
/// then fails without an answer and the session stays as it was. The
/// pending handshake must be one the SRP server can process.
pub fn srp_auth(session: &mut AuthSession, evidence: &[u8]) -> (r: Option<AppResult<SrpAuthResponse>>)
    requires
        pending_handshake_in_range(old(session)@),
    ensures
        match r {
            None => auth_step(old(session)@, evidence@) is None && final(session)@ == old(
                session,
            )@,
            Some(res) => auth_step(old(session)@, evidence@) == Some(
                (final(session)@, auth_answer(res.0)),
            ),
        },
{
    let (userid, checked) = match &session.srp {
        None => {
            return Some(AppResult::err(AppError::SRPNotStarted));
        },
        Some(p) => (
            p.userid,
            srp_check_client_proof(
                p.username.as_str(),
                p.salt.as_slice(),
                p.server_private_key.as_slice(),
                p.verifier.as_slice(),
                p.client_public_key.as_slice(),
                evidence,
            ),
        ),
    };
    match checked {
        None => None,
        Some(None) => Some(AppResult::err(AppError::InvalidCredential)),
        Some(Some(proof)) => {
            session.srp = None;
            session.user = Some(userid);
            Some(AppResult::ok(SrpAuthResponse { srp_evidence: proof }))
        },
    }
}

// ---------------------------------------------------------------------------
// Logout and state
// ---------------------------------------------------------------------------

/// Logging out clears a logged-in session; a client that is not logged in is
/// refused and keeps its session.
pub open spec fn logout_step(s: AuthSessionView) -> (AuthSessionView, Result<(), AppError>) {
    if s.user is Some {
        (empty_session(), Ok(()))
    } else {
        (s, Err(AppError::Forbidden))
    }
}

/// Answers `POST /auth/logout`.
pub fn logout(session: &mut AuthSession) -> (r: AppResult<ActionResult>)
    ensures
        logout_step(old(session)@) == (
            final(session)@,
            match r.0 {
                Ok(_) => Ok::<(), AppError>(()),
                Err(e) => Err(e),
            },
        ),
        r.0 matches Ok(a) ==> a.success,
{
    let guard = guard_auth(session, true);
    if let Err(e) = guard.0 {
        return AppResult::err(e);
    }
    session.user = None;
    session.srp = None;
    AppResult::ok(ActionResult::success())
}

pub struct GetStateResponseUser {
    pub username: String,
}

pub struct GetStateResponse {
    pub user: Option<GetStateResponseUser>,
}

/// Answers `GET /auth/state` from the session and the name of the logged-in
/// user (`None` where looking it up failed; not read when nobody is logged
/// in).
pub fn get_state(session: &AuthSession, username: Option<String>) -> (r: AppResult<GetStateResponse>)
    ensures
        session@.user is None ==> (r.0 matches Ok(resp) && resp.user is None),
        session@.user is Some ==> match username {
            None => r.0 == Err::<GetStateResponse, AppError>(AppError::Internal),
            Some(name) => r.0 matches Ok(resp) && resp.user matches Some(u) && u.username
                == name,
        },
{
    match get_userid(session) {
        None => AppResult::ok(GetStateResponse { user: None }),
        Some(_) => match username {
            None => AppResult::err(AppError::Internal),
            Some(name) => AppResult::ok(
                GetStateResponse { user: Some(GetStateResponseUser { username: name }) },
            ),
        },
    }
}

// ---------------------------------------------------------------------------
// Laws of the login session
// ---------------------------------------------------------------------------

/// Every session passes exactly one of the two guards: the one for logged-in
/// clients or the one for anonymous clients.
pub proof fn lemma_guard_exactly_one(s: AuthSessionView)
    ensures
        guard_spec(s, true) is Ok != guard_spec(s, false) is Ok,
        guard_spec(s, true) is Err ==> guard_spec(s, true) == Err::<(), AppError>(AppError::Forbidden),
        guard_spec(s, false) is Err ==> guard_spec(s, false) == Err::<(), AppError>(AppError::Forbidden),
{
}

/// A handshake completed with the client proof that belongs to it logs the
/// session in as the user of the record that `hello` found, answers the
/// server proof, and leaves no pending handshake behind.
pub proof fn lemma_handshake_logs_in(
    s: AuthSessionView,
    username: Seq<char>,
    a_pub: Seq<u8>,
    rec: UserSrpRecordView,
    b: Seq<u8>,
)
    requires
        s.user is None,
        !srp_rejects_client_key(a_pub),
    ensures
        ({
            let (s1, answer) = hello_step(s, username, a_pub, Some(rec), b);
            &&& answer == Ok::<(Seq<u8>, Seq<u8>), AppError>(
                (rec.srp_salt, srp_public_ephemeral(b, rec.srp_verifier)),
            )
            &&& auth_step(
                s1,
                srp_client_evidence(username, rec.srp_salt, b, rec.srp_verifier, a_pub),
            ) == Some(
                (
                    logged_in_session(rec.id),
                    Ok::<Seq<u8>, AppError>(
                        srp_server_evidence(username, rec.srp_salt, b, rec.srp_verifier, a_pub),
                    ),
                ),
            )
            &&& logged_in_session(rec.id).user == Some(rec.id)
            &&& guard_spec(logged_in_session(rec.id), true) is Ok
        }),
{
}

/// A wrong client proof is refused with `InvalidCredential` and the
/// handshake stays pending, so the client may try again.
pub proof fn lemma_wrong_proof_keeps_handshake(
    s: AuthSessionView,
    username: Seq<char>,
    a_pub: Seq<u8>,
    rec: UserSrpRecordView,
    b: Seq<u8>,
    evidence: Seq<u8>,
)
    requires
        s.user is None,
        !srp_rejects_client_key(a_pub),
        evidence != srp_client_evidence(username, rec.srp_salt, b, rec.srp_verifier, a_pub),
    ensures
        ({
            let (s1, _) = hello_step(s, username, a_pub, Some(rec), b);
            &&& auth_step(s1, evidence) == Some(
                (s1, Err::<Seq<u8>, AppError>(AppError::InvalidCredential)),
            )
            &&& s1.user is None
        }),
{
}

/// Without a pending handshake no proof is accepted: the answer is
/// `SRPNotStarted` and the session stays as it was. In particular a proof
/// cannot log in twice, since a successful `auth` ends the handshake.
pub proof fn lemma_auth_needs_pending_handshake(s: AuthSessionView, evidence: Seq<u8>)
    requires
        s.srp is None,
    ensures
        auth_step(s, evidence) == Some((s, Err::<Seq<u8>, AppError>(AppError::SRPNotStarted))),
{
}

/// A handshake can be started only by a client that is not logged in, and so
/// can a sign-up; a logged-in client is refused and keeps its session.
pub proof fn lemma_logged_in_is_refused_hello_and_signup(
    s: AuthSessionView,
    username: Seq<char>,
    a_pub: Seq<u8>,
    record: Option<UserSrpRecordView>,
    b: Seq<u8>,
    insert: SignupInsert,
)
    requires
        s.user is Some,
    ensures
        hello_step(s, username, a_pub, record, b) == (
            s,
            Err::<(Seq<u8>, Seq<u8>), AppError>(AppError::Forbidden),
        ),
        signup_spec(s, insert) == Err::<bool, AppError>(AppError::Forbidden),
{
}

/// Logging out ends a login: afterwards the session is empty, passes the
/// guard for anonymous clients only, and a second logout is refused.
pub proof fn lemma_logout_ends_login(s: AuthSessionView)
    requires
        s.user is Some,
    ensures
        logout_step(s) == (empty_session(), Ok::<(), AppError>(())),
        guard_spec(empty_session(), false) is Ok,
        guard_spec(empty_session(), true) == Err::<(), AppError>(AppError::Forbidden),
        logout_step(empty_session()) == (
            empty_session(),
            Err::<(), AppError>(AppError::Forbidden),
        ),
{
}

/// For every server secret, a `hello` by a client that is not logged in,
/// for a user that was found, succeeds: it answers the user's salt and B of
/// that secret and keeps the handshake for that user. It never answers
/// `Internal`, whatever the name, client value or record.
pub proof fn lemma_hello_with_found_user_succeeds(
    s: AuthSessionView,
    username: Seq<char>,
    a_pub: Seq<u8>,
    rec: UserSrpRecordView,
    b: Seq<u8>,
)
    requires
        s.user is None,
    ensures
        ({
            let (s1, answer) = hello_step(s, username, a_pub, Some(rec), b);
            &&& hello_succeeded(s, s1, username, a_pub, Some(rec), answer)
            &&& s1.srp matches Some(p) && p.server_private_key == b
            &&& answer == Ok::<(Seq<u8>, Seq<u8>), AppError>(
                (rec.srp_salt, srp_public_ephemeral(b, rec.srp_verifier)),
            )
        }),
        forall|rec2: Option<UserSrpRecordView>|
            !(#[trigger] hello_step(s, username, a_pub, rec2, b).1 matches Err(AppError::Internal)),
{
}

} // verus!
