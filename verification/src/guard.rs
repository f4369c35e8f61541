//! The request gate: from a raw `Authorization` header to an
//! authenticated principal.
//!
//! The check walks a fixed ladder and rejects on the first bad rung:
//! extract a bearer token from the header (missing or malformed header:
//! missing credential), resolve it to the one user row currently holding
//! it (no row: unauthenticated — a well-formed token nobody holds is
//! "not logged in", not a bad request), then check the token
//! cryptographically, deliberately after the lookup so the two
//! rejections look alike up to the lookup. On success the resolved
//! user's id is the request's principal.

use vstd::prelude::*;
use vstd::string::StrSliceExecFns;

use crate::errors::ApiError;
use crate::errors::ErrorKind;
use crate::jwt::TokenService;
use crate::jwt::token_status;
use crate::store::Store;
use crate::store::User;
use crate::store::has_user_with_token;

verus! {

/// The bearer token carried by an `Authorization` header value: the
/// scheme word `Bearer`, one space, then a non-empty token.
pub open spec fn bearer_of(h: Seq<char>) -> Option<Seq<char>> {
    if h.len() > 7 && h[0] == 'B' && h[1] == 'e' && h[2] == 'a' && h[3] == 'r' && h[4] == 'e'
        && h[5] == 'r' && h[6] == ' ' {
        Some(h.subrange(7, h.len() as int))
    } else {
        None
    }
}

/// The header as the guard's spec-level input.
pub open spec fn header_view(header: Option<&String>) -> Option<Seq<char>> {
    match header {
        Some(h) => Some(h@),
        None => None,
    }
}

/// Extract the bearer token from a header value, exactly where the
/// header follows the `Bearer <token>` shape.
pub fn parse_bearer(h: &str) -> (r: Option<String>)
    ensures
        r matches Some(t) ==> bearer_of(h@) == Some(t@),
        (r is Some) == (bearer_of(h@) is Some),
{
    let len = h.unicode_len();
    if len <= 7 {
        return None;
    }
    if h.get_char(0) != 'B' || h.get_char(1) != 'e' || h.get_char(2) != 'a' || h.get_char(3) != 'r'
        || h.get_char(4) != 'e' || h.get_char(5) != 'r' || h.get_char(6) != ' ' {
        return None;
    }
    let token = h.substring_char(7, len);
    Some(token.to_owned())
}

/// What the guard decides, step by step: no usable bearer header is a
/// missing credential; a token no user row holds is unauthenticated; a
/// held token is then checked cryptographically and against the clock.
pub open spec fn guard_outcome(
    users: Seq<User>,
    header: Option<Seq<char>>,
    secret: Seq<u8>,
    now: u64,
) -> Result<(), ErrorKind> {
    match header {
        None => Err(ErrorKind::MissingCredential),
        Some(h) => match bearer_of(h) {
            None => Err(ErrorKind::MissingCredential),
            Some(tok) => if !has_user_with_token(users, tok) {
                Err(ErrorKind::Unauthenticated)
            } else {
                match token_status(secret, tok, now) {
                    Ok(_) => Ok(()),
                    Err(k) => Err(k),
                }
            },
        },
    }
}

/// Gate a request at clock reading `now`: on success the result is the
/// id of the user row holding the presented token, the request's
/// authenticated principal; on failure the protected handler must not
/// run. The guard itself changes nothing.
pub fn guard(store: &Store, service: &TokenService, header: Option<&String>, now: u64) -> (r:
    Result<i32, ApiError>)
    ensures
        (r is Ok) == (guard_outcome(store.users@, header_view(header), service.secret(), now)
            is Ok),
        r matches Err(e) ==> guard_outcome(store.users@, header_view(header), service.secret(), now)
            == Err::<(), ErrorKind>(e.kind),
        r matches Ok(id) ==> exists|i: int|
            0 <= i < store.users@.len() && #[trigger] store.users@[i].id == id
                && store.users@[i].token.deep_view() == Some(
                bearer_of(header_view(header)->Some_0)->Some_0,
            ),
    {
    let h = match header {
        Some(h) => h,
        None => {
            return Err(ApiError::new(ErrorKind::MissingCredential, "Missing bearer token"));
        },
    };
    let token = match parse_bearer(h.as_str()) {
        Some(t) => t,
        None => {
            return Err(ApiError::new(ErrorKind::MissingCredential, "Missing bearer token"));
        },
    };
    let idx = match store.find_user_by_token(&token) {
        Some(i) => i,
        None => {
            return Err(ApiError::new(ErrorKind::Unauthenticated, "Unauthorized, please log in"));
        },
    };
    match service.validate_at(token.as_str(), now) {
        Ok(_) => Ok(store.users[idx].id),
        Err(e) => Err(e),
    }
}

/// Law: a missing or shapeless header and a well-formed token that no
/// user holds are observably different rejections — the first is a
/// missing credential, the second unauthenticated.
pub proof fn lemma_guard_distinguishes(
    users: Seq<User>,
    header: Option<Seq<char>>,
    secret: Seq<u8>,
    now: u64,
)
    ensures
        (header matches Some(h) ==> bearer_of(h) is None) ==> guard_outcome(
            users,
            header,
            secret,
            now,
        ) == Err::<(), ErrorKind>(ErrorKind::MissingCredential),
        (header matches Some(h) && bearer_of(h) matches Some(tok) && !has_user_with_token(
            users,
            tok,
        )) ==> guard_outcome(users, header, secret, now) == Err::<(), ErrorKind>(
            ErrorKind::Unauthenticated,
        ),
        ErrorKind::MissingCredential != ErrorKind::Unauthenticated,
{
}

/// Law: clearing a token revokes it. When the user row holding `tok`
/// has its token cleared (as logout does) and no other row held `tok`,
/// the guard rejects `tok` as unauthenticated from then on, however far
/// its cryptographic expiry may lie in the future.
pub proof fn lemma_cleared_token_fails_guard(
    before: Seq<User>,
    after: Seq<User>,
    uid: i32,
    h: Seq<char>,
    tok: Seq<char>,
    secret: Seq<u8>,
    now: u64,
)
    requires
        bearer_of(h) == Some(tok),
        after.len() == before.len(),
        forall|j: int|
            0 <= j < before.len() && before[j].id != uid ==> after[j] == before[j],
        forall|j: int|
            0 <= j < before.len() && before[j].id == uid ==> after[j].token.deep_view()
                != Some(tok),
        forall|j: int|
            0 <= j < before.len() && before[j].id != uid ==> before[j].token.deep_view()
                != Some(tok),
    ensures
        guard_outcome(after, Some(h), secret, now) == Err::<(), ErrorKind>(
            ErrorKind::Unauthenticated,
        ),
{
    assert forall|i: int| 0 <= i < after.len() implies after[i].token.deep_view() != Some(tok) by {
        if before[i].id != uid {
            assert(after[i] == before[i]);
        }
    }
}

} // verus!
