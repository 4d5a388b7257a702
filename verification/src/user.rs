//! Looking up users: by id, and by the start of their name.

use crate::auth::{guard_auth, guard_spec, AuthSession};
use crate::common::{AppError, AppResult};
use vstd::prelude::*;

verus! {

/// What a client may learn of a user: id, name and public key.
#[derive(Debug, PartialEq, Eq)]
pub struct GetUserResponse {
    pub id: u128,
    pub username: String,
    pub public_key: Vec<u8>,
}

/// The stored name and public key of a user.
pub struct UserRecord {
    pub username: String,
    pub public_key: Vec<u8>,
}

/// Answers `GET /user/{id}` from the session and the stored record of the
/// user (`None` where the lookup failed).
pub fn get(session: &AuthSession, id: u128, record: Option<UserRecord>) -> (r: AppResult<GetUserResponse>)
    ensures
        guard_spec(session@, true) is Err ==> r.0 == Err::<GetUserResponse, AppError>(
            AppError::Forbidden,
        ),
        guard_spec(session@, true) is Ok ==> match record {
            None => r.0 == Err::<GetUserResponse, AppError>(AppError::UserNotFound),
            Some(rec) => r.0 == Ok::<GetUserResponse, AppError>(
                GetUserResponse { id, username: rec.username, public_key: rec.public_key },
            ),
        },
{
    let guard = guard_auth(session, true);
    if let Err(e) = guard.0 {
        return AppResult::err(e);
    }
    match record {
        None => AppResult::err(AppError::UserNotFound),
        Some(rec) => AppResult::ok(
            GetUserResponse { id, username: rec.username, public_key: rec.public_key },
        ),
    }
}

/// The `LIKE` pattern that finds the users whose name starts with
/// `username`: the name followed by `%`. The name's own `%` and `_` keep
/// their meaning as wildcards.
pub fn user_search_pattern(username: &str) -> (pattern: String)
    ensures
        pattern@ == username@.push('%'),
{
    proof {
        reveal_strlit("%");
    }
    let pattern = username.to_owned().concat("%");
    assert(pattern@ =~= username@.push('%'));
    pattern
}

/// Answers `GET /user?username=..` from the session and the users that the
/// pattern of [`user_search_pattern`] found (`None` where the query failed).
pub fn get_list(session: &AuthSession, users: Option<Vec<GetUserResponse>>) -> (r: AppResult<
    Vec<GetUserResponse>,
>)
    ensures
        guard_spec(session@, true) is Err ==> r.0 == Err::<Vec<GetUserResponse>, AppError>(
            AppError::Forbidden,
        ),
        guard_spec(session@, true) is Ok ==> match users {
            None => r.0 == Err::<Vec<GetUserResponse>, AppError>(AppError::UserNotFound),
            Some(found) => r.0 == Ok::<Vec<GetUserResponse>, AppError>(found),
        },
{
    let guard = guard_auth(session, true);
    if let Err(e) = guard.0 {
        return AppResult::err(e);
    }
    match users {
        None => AppResult::err(AppError::UserNotFound),
        Some(found) => AppResult::ok(found),
    }
}

} // verus!
