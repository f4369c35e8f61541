//! Registration, login and logout, composing the password hasher, the
//! token service and the persistence model.
//!
//! Login overwrites the stored token with a freshly issued one, so at
//! most one session per user is valid at a time and an earlier token
//! stops passing the guard. Logout clears the stored token, revoking it
//! even before its cryptographic expiry.

use vstd::prelude::*;
use vstd::pervasive::VecAdditionalExecFns;

use crate::errors::ApiError;
use crate::errors::ErrorKind;
use crate::guard::bearer_of;
use crate::guard::guard_outcome;
use crate::hashing::argon_hash;
use crate::hashing::argon_matches;
use crate::hashing::argon_verify;
use crate::hashing::phc_valid;
use crate::jwt::TOKEN_VALIDITY_SECS;
use crate::jwt::TokenService;
use crate::jwt::jwt_decode_spec;
use crate::jwt::jwt_encode_spec;
use crate::store::Store;
use crate::store::User;
use crate::store::has_user_id;
use crate::store::has_username;
use crate::store::same_user_except_token;

verus! {

/// A registration or login request: a username and a plaintext
/// password. The plaintext never outlives the flow that consumes it.
#[derive(Debug)]
pub struct RequestUser {
    pub username: String,
    pub password: String,
}

/// What a successful registration or login returns to the caller: the
/// user's identity and the freshly issued token. The password hash
/// never leaves the store.
#[derive(Debug)]
pub struct ResponseUser {
    pub id: i32,
    pub username: String,
    pub token: String,
}

/// Register a new user: reject a taken username as a conflict, then
/// hash the password, issue a token, persist the row, and return
/// identity plus token. Past the uniqueness check only hashing (the
/// randomness source) and id-space exhaustion can fail, both internal
/// faults.
pub fn create_user(store: &mut Store, service: &TokenService, req: RequestUser, now: u64) -> (r:
    Result<ResponseUser, ApiError>)
    requires
        old(store).wf(),
        now + TOKEN_VALIDITY_SECS <= u64::MAX,
    ensures
        final(store).wf(),
        final(store).tickets@ == old(store).tickets@,
        has_username(old(store).users@, req.username@) ==> r is Err,
        r matches Err(e) ==> *final(store) == *old(store),
        r matches Err(e) ==> e.kind == (if has_username(old(store).users@, req.username@) {
            ErrorKind::Conflict
        } else {
            ErrorKind::InternalError
        }),
        r matches Ok(resp) ==> {
            &&& !has_username(old(store).users@, req.username@)
            &&& final(store).users@.len() == old(store).users@.len() + 1
            &&& forall|j: int|
                0 <= j < old(store).users@.len() ==> final(store).users@[j] == old(store).users@[j]
            &&& final(store).users@.last().id == resp.id
            &&& final(store).users@.last().username@ == req.username@
            &&& resp.username@ == req.username@
            &&& final(store).users@.last().token.deep_view() == Some(resp.token@)
            &&& resp.token@.len() > 0
            &&& resp.token@ == jwt_encode_spec(service.secret(), now, (now
                + TOKEN_VALIDITY_SECS) as u64)
            &&& jwt_decode_spec(service.secret(), resp.token@) == Some((now, (now
                + TOKEN_VALIDITY_SECS) as u64))
            &&& phc_valid(final(store).users@.last().password@)
            &&& argon_matches(req.password@, final(store).users@.last().password@)
        },
{
    if store.find_user_by_username(&req.username).is_some() {
        return Err(ApiError::new(ErrorKind::Conflict, "Username already taken"));
    }
    let hash = match argon_hash(req.password.as_str()) {
        Ok(h) => h,
        Err(e) => {
            return Err(e);
        },
    };
    let jwt = match service.issue_at(now) {
        Ok(t) => t,
        Err(e) => {
            return Err(e);
        },
    };
    let username = req.username.clone();
    match store.insert_user(req.username, hash, Some(jwt.clone())) {
        Ok(id) => Ok(ResponseUser { id, username, token: jwt }),
        Err(e) => Err(e),
    }
}

/// Log a user in: look the username up (unknown: not found), verify the
/// password (mismatch: bad credential; unreadable stored hash: internal
/// fault), then issue a fresh token and overwrite the stored one,
/// invalidating whatever token the user held before. Issuance cannot
/// fail, so login succeeds exactly on a known username whose stored
/// hash parses and matches the password.
pub fn login(store: &mut Store, service: &TokenService, req: RequestUser, now: u64) -> (r: Result<
    ResponseUser,
    ApiError,
>)
    requires
        old(store).wf(),
        now + TOKEN_VALIDITY_SECS <= u64::MAX,
    ensures
        final(store).wf(),
        final(store).tickets@ == old(store).tickets@,
        (r is Ok) == exists|i: int|
            0 <= i < old(store).users@.len() && #[trigger] old(store).users@[i].username@
                == req.username@ && phc_valid(old(store).users@[i].password@) && argon_matches(
                req.password@,
                old(store).users@[i].password@,
            ),
        r matches Err(e) ==> *final(store) == *old(store),
        r matches Err(e) ==> (e.kind == ErrorKind::NotFound <==> !has_username(
            old(store).users@,
            req.username@,
        )),
        r matches Err(e) ==> forall|j: int|
            0 <= j < old(store).users@.len() && #[trigger] old(store).users@[j].username@
                == req.username@ ==> e.kind == (if !phc_valid(old(store).users@[j].password@) {
                ErrorKind::InternalError
            } else {
                ErrorKind::InvalidCredential
            }),
        r matches Ok(resp) ==> {
            &&& has_username(old(store).users@, req.username@)
            &&& final(store).users@.len() == old(store).users@.len()
            &&& forall|j: int|
                0 <= j < old(store).users@.len() && old(store).users@[j].username@ != req.username@
                    ==> final(store).users@[j] == old(store).users@[j]
            &&& forall|j: int|
                0 <= j < old(store).users@.len() && old(store).users@[j].username@
                    == req.username@ ==> {
                    &&& same_user_except_token(final(store).users@[j], old(store).users@[j])
                    &&& final(store).users@[j].token.deep_view() == Some(resp.token@)
                    &&& resp.id == old(store).users@[j].id
                    &&& resp.username@ == req.username@
                    &&& phc_valid(old(store).users@[j].password@)
                    &&& argon_matches(req.password@, old(store).users@[j].password@)
                }
            &&& resp.token@.len() > 0
            &&& resp.token@ == jwt_encode_spec(service.secret(), now, (now
                + TOKEN_VALIDITY_SECS) as u64)
            &&& jwt_decode_spec(service.secret(), resp.token@) == Some((now, (now
                + TOKEN_VALIDITY_SECS) as u64))
        },
{
    let i = match store.find_user_by_username(&req.username) {
        Some(i) => i,
        None => {
            return Err(ApiError::new(ErrorKind::NotFound, "Requested user not found"));
        },
    };
    proof {
        assert forall|j: int|
            0 <= j < old(store).users@.len() && old(store).users@[j].username@ == req.username@
                implies j == i as int by {
            if j < i as int {
                assert(old(store).users@[j].username@ != old(store).users@[i as int].username@);
            }
            if j > i as int {
                assert(old(store).users@[i as int].username@ != old(store).users@[j].username@);
            }
        }
    }
    match argon_verify(req.password.as_str(), store.users[i].password.as_str()) {
        Ok(_) => {},
        Err(e) => {
            return Err(e);
        },
    }
    let token = match service.issue_at(now) {
        Ok(t) => t,
        Err(e) => {
            return Err(e);
        },
    };
    let updated = User {
        id: store.users[i].id,
        username: store.users[i].username.clone(),
        password: store.users[i].password.clone(),
        token: Some(token.clone()),
    };
    let resp = ResponseUser {
        id: store.users[i].id,
        username: store.users[i].username.clone(),
        token,
    };
    self_set_user(store, i, updated);
    Ok(resp)
}

/// Replace one user row, keeping the store's shape facts visible to the
/// caller.
fn self_set_user(store: &mut Store, i: usize, u: User)
    requires
        i < old(store).users@.len(),
    ensures
        final(store).users@ == old(store).users@.update(i as int, u),
        final(store).tickets@ == old(store).tickets@,
        final(store).next_user_id == old(store).next_user_id,
        final(store).next_ticket_id == old(store).next_ticket_id,
{
    store.users.set(i, u);
}

/// Log an authenticated principal out: clear the stored token of the
/// user row holding this id, so that the cleared token can never again
/// pass the guard. The principal comes from a prior successful guard
/// pass; a row that has vanished since is an internal fault.
pub fn logout(store: &mut Store, user_id: i32) -> (r: Result<(), ApiError>)
    requires
        old(store).wf(),
    ensures
        final(store).wf(),
        final(store).tickets@ == old(store).tickets@,
        (r is Ok) <==> has_user_id(old(store).users@, user_id),
        r is Ok ==> {
            &&& final(store).users@.len() == old(store).users@.len()
            &&& forall|j: int|
                0 <= j < old(store).users@.len() && old(store).users@[j].id != user_id
                    ==> final(store).users@[j] == old(store).users@[j]
            &&& forall|j: int|
                0 <= j < old(store).users@.len() && old(store).users@[j].id == user_id ==> {
                    &&& same_user_except_token(final(store).users@[j], old(store).users@[j])
                    &&& final(store).users@[j].token.deep_view() == None::<Seq<char>>
                }
        },
        r matches Err(e) ==> *final(store) == *old(store) && e.kind == ErrorKind::InternalError,
{
    match store.update_user_token(user_id, None) {
        Ok(()) => Ok(()),
        Err(_) => Err(ApiError::new(ErrorKind::InternalError, "Failed to update user")),
    }
}

/// Law: login rotates the token. When the rows holding this username
/// all carry the fresh token `t2` afterwards, every other row is
/// untouched and none of them held the old token `t1`, then — provided
/// the two tokens differ, which holds whenever they decode to different
/// claims — the guard rejects `t1` as unauthenticated from then on.
pub proof fn lemma_rotated_token_fails_guard(
    before: Seq<User>,
    after: Seq<User>,
    name: Seq<char>,
    h: Seq<char>,
    t1: Seq<char>,
    t2: Seq<char>,
    secret: Seq<u8>,
    now: u64,
)
    requires
        bearer_of(h) == Some(t1),
        t1 != t2,
        after.len() == before.len(),
        forall|j: int| 0 <= j < before.len() && before[j].username@ != name ==> after[j] == before[j],
        forall|j: int|
            0 <= j < before.len() && before[j].username@ == name ==> after[j].token.deep_view()
                == Some(t2),
        forall|j: int|
            0 <= j < before.len() && before[j].username@ != name ==> before[j].token.deep_view()
                != Some(t1),
    ensures
        guard_outcome(after, Some(h), secret, now) == Err::<(), ErrorKind>(
            ErrorKind::Unauthenticated,
        ),
{
    assert forall|i: int| 0 <= i < after.len() implies after[i].token.deep_view() != Some(t1) by {
        if before[i].username@ != name {
            assert(after[i] == before[i]);
        }
    }
}

} // verus!
