//! Creation, retrieval and update of ticket records.
//!
//! Creation is gated by the stored-token lookup: the request's bearer
//! token must be the current token of some user row, and the new ticket
//! is owned by that user. Updates come in two shapes over one write
//! path: a full replace, where every field is mandatory and unset
//! optional fields become null, and a tri-state partial patch, where an
//! omitted field stays untouched.

use vstd::prelude::*;

use crate::errors::ApiError;
use crate::errors::ErrorKind;
use crate::patch::TicketPatch;
use crate::patch::apply_patch;
use crate::patch::patch_valid;
use crate::patch::patched;
use crate::store::Store;
use crate::store::Ticket;
use crate::store::has_ticket_id;
use crate::store::has_user_with_token;
use crate::store::same_ticket_except_id;

verus! {

/// A ticket-creation request: a required title and the optional
/// creation fields.
#[derive(Debug)]
pub struct RequestTicket {
    pub title: String,
    pub description: Option<String>,
    pub priority: Option<String>,
}

/// A full-replace update request: every mutable field is present, and
/// an unset optional field means null, not "unchanged". The id field of
/// the body is ignored; the path decides which record is replaced.
#[derive(Debug)]
pub struct RequestTask {
    pub id: Option<i32>,
    pub priority: Option<String>,
    pub title: String,
    pub completed_at: Option<i64>,
    pub description: Option<String>,
    pub deleted_at: Option<i64>,
    pub user_id: Option<i32>,
    pub in_progress: Option<bool>,
}

/// A ticket as returned to callers.
#[derive(Debug)]
pub struct ResponseTicket {
    pub id: i32,
    pub title: String,
    pub description: Option<String>,
    pub priority: Option<String>,
    pub deleted_at: Option<i64>,
    pub user_id: Option<i32>,
}

/// Whether a response row faithfully renders a stored ticket row.
pub open spec fn renders_ticket(r: ResponseTicket, t: Ticket) -> bool {
    &&& r.id == t.id
    &&& r.title@ == t.title@
    &&& r.description.deep_view() == t.description.deep_view()
    &&& r.priority.deep_view() == t.priority.deep_view()
    &&& r.deleted_at == t.deleted_at
    &&& r.user_id == t.user_id
}

/// Render one stored row for callers.
fn render_ticket(t: &Ticket) -> (r: ResponseTicket)
    ensures
        renders_ticket(r, *t),
{
    ResponseTicket {
        id: t.id,
        title: t.title.clone(),
        description: match &t.description {
            Some(d) => Some(d.clone()),
            None => None,
        },
        priority: match &t.priority {
            Some(p) => Some(p.clone()),
            None => None,
        },
        deleted_at: t.deleted_at,
        user_id: t.user_id,
    }
}

/// Create a ticket owned by the user currently holding the presented
/// bearer token. A token no user holds is unauthenticated; an empty
/// title is malformed, as the title is required.
pub fn ticket_create(store: &mut Store, token: &String, req: RequestTicket) -> (r: Result<
    (),
    ApiError,
>)
    requires
        old(store).wf(),
    ensures
        final(store).wf(),
        final(store).users@ == old(store).users@,
        (r is Ok) <==> (has_user_with_token(old(store).users@, token@) && req.title@.len() > 0 && old(
            store,
        ).next_ticket_id < i32::MAX),
        r is Ok ==> {
            &&& final(store).tickets@.len() == old(store).tickets@.len() + 1
            &&& forall|j: int|
                0 <= j < old(store).tickets@.len() ==> final(store).tickets@[j] == old(
                    store,
                ).tickets@[j]
            &&& final(store).tickets@.last().title@ == req.title@
            &&& final(store).tickets@.last().description.deep_view() == req.description.deep_view()
            &&& final(store).tickets@.last().priority.deep_view() == req.priority.deep_view()
            &&& final(store).tickets@.last().completed_at is None
            &&& final(store).tickets@.last().deleted_at is None
            &&& final(store).tickets@.last().in_progress is None
            &&& exists|i: int|
                0 <= i < old(store).users@.len() && #[trigger] old(store).users@[i].token.deep_view()
                    == Some(token@) && final(store).tickets@.last().user_id == Some(
                    old(store).users@[i].id,
                )
        },
        r matches Err(e) ==> {
            &&& *final(store) == *old(store)
            &&& e.kind == (if !has_user_with_token(old(store).users@, token@) {
                ErrorKind::Unauthenticated
            } else if req.title@.len() == 0 {
                ErrorKind::Malformed
            } else {
                ErrorKind::InternalError
            })
        },
{
    let owner = match store.find_user_by_token(token) {
        Some(i) => store.users[i].id,
        None => {
            return Err(ApiError::new(ErrorKind::Unauthenticated, "Unauthorized, please log in"));
        },
    };
    if req.title.as_str().is_empty() {
        return Err(ApiError::new(ErrorKind::Malformed, "Title must not be empty"));
    }
    match store.insert_ticket(req.title, req.description, req.priority, Some(owner)) {
        Ok(_) => Ok(()),
        Err(e) => Err(e),
    }
}

/// All stored tickets, rendered for callers in row order.
pub fn ticket_get_all(store: &Store) -> (r: Vec<ResponseTicket>)
    ensures
        r@.len() == store.tickets@.len(),
        forall|j: int| 0 <= j < r@.len() ==> renders_ticket(#[trigger] r@[j], store.tickets@[j]),
{
    let n = store.tickets.len();
    let mut out: Vec<ResponseTicket> = Vec::new();
    let mut i: usize = 0;
    while i < n
        invariant
            n == store.tickets@.len(),
            i <= n,
            out@.len() == i,
            forall|j: int| 0 <= j < i ==> renders_ticket(#[trigger] out@[j], store.tickets@[j]),
        decreases n - i,
    {
        out.push(render_ticket(&store.tickets[i]));
        i = i + 1;
    }
    out
}

/// The stored ticket holding this id, rendered for callers; not found
/// when no row holds it.
pub fn ticket_get_single(store: &Store, ticket_id: i32) -> (r: Result<ResponseTicket, ApiError>)
    ensures
        (r is Ok) == has_ticket_id(store.tickets@, ticket_id),
        r matches Ok(resp) ==> exists|i: int|
            0 <= i < store.tickets@.len() && #[trigger] store.tickets@[i].id == ticket_id
                && renders_ticket(resp, store.tickets@[i]),
        r matches Err(e) ==> e.kind == ErrorKind::NotFound,
{
    match store.find_ticket_by_id(ticket_id) {
        Some(i) => Ok(render_ticket(&store.tickets[i])),
        None => Err(ApiError::new(ErrorKind::NotFound, "Requested ticket not found")),
    }
}

/// Replace, in one step, every field of the ticket holding this id with
/// the request's fields; unset optional fields become null. The same
/// validation as on creation applies: an empty title is malformed.
pub fn ticket_update_atomic(store: &mut Store, ticket_id: i32, req: RequestTask) -> (r: Result<
    (),
    ApiError,
>)
    requires
        old(store).wf(),
    ensures
        final(store).wf(),
        final(store).users@ == old(store).users@,
        (r is Ok) <==> (has_ticket_id(old(store).tickets@, ticket_id) && req.title@.len() > 0),
        r is Ok ==> {
            &&& final(store).tickets@.len() == old(store).tickets@.len()
            &&& forall|j: int|
                0 <= j < old(store).tickets@.len() && old(store).tickets@[j].id != ticket_id
                    ==> final(store).tickets@[j] == old(store).tickets@[j]
            &&& forall|j: int|
                0 <= j < old(store).tickets@.len() && old(store).tickets@[j].id == ticket_id ==> {
                    &&& final(store).tickets@[j].id == ticket_id
                    &&& final(store).tickets@[j].title@ == req.title@
                    &&& final(store).tickets@[j].description.deep_view()
                        == req.description.deep_view()
                    &&& final(store).tickets@[j].priority.deep_view() == req.priority.deep_view()
                    &&& final(store).tickets@[j].completed_at == req.completed_at
                    &&& final(store).tickets@[j].deleted_at == req.deleted_at
                    &&& final(store).tickets@[j].user_id == req.user_id
                    &&& final(store).tickets@[j].in_progress == req.in_progress
                }
        },
        r matches Err(e) ==> {
            &&& *final(store) == *old(store)
            &&& e.kind == (if req.title@.len() == 0 {
                ErrorKind::Malformed
            } else {
                ErrorKind::NotFound
            })
        },
{
    if req.title.as_str().is_empty() {
        return Err(ApiError::new(ErrorKind::Malformed, "Title must not be empty"));
    }
    let fields = Ticket {
        id: ticket_id,
        title: req.title,
        description: req.description,
        priority: req.priority,
        completed_at: req.completed_at,
        deleted_at: req.deleted_at,
        user_id: req.user_id,
        in_progress: req.in_progress,
    };
    store.update_ticket(ticket_id, fields)
}

/// Apply a tri-state patch to the ticket holding this id: omitted
/// fields keep their stored value, explicitly null fields are cleared,
/// set fields take the given value under the creation-time validation.
pub fn ticket_update_partial(store: &mut Store, ticket_id: i32, patch: TicketPatch) -> (r: Result<
    (),
    ApiError,
>)
    requires
        old(store).wf(),
    ensures
        final(store).wf(),
        final(store).users@ == old(store).users@,
        (r is Ok) <==> (has_ticket_id(old(store).tickets@, ticket_id) && patch_valid(patch)),
        r is Ok ==> {
            &&& final(store).tickets@.len() == old(store).tickets@.len()
            &&& forall|j: int|
                0 <= j < old(store).tickets@.len() && old(store).tickets@[j].id != ticket_id
                    ==> final(store).tickets@[j] == old(store).tickets@[j]
            &&& forall|j: int|
                0 <= j < old(store).tickets@.len() && old(store).tickets@[j].id == ticket_id ==> {
                    &&& final(store).tickets@[j].id == ticket_id
                    &&& same_ticket_except_id(
                        final(store).tickets@[j],
                        patched(old(store).tickets@[j], patch),
                    )
                }
        },
        r matches Err(e) ==> {
            &&& *final(store) == *old(store)
            &&& e.kind == (if !has_ticket_id(old(store).tickets@, ticket_id) {
                ErrorKind::NotFound
            } else {
                ErrorKind::Malformed
            })
        },
{
    let i = match store.find_ticket_by_id(ticket_id) {
        Some(i) => i,
        None => {
            return Err(ApiError::new(ErrorKind::NotFound, "No ticket found"));
        },
    };
    let updated = match apply_patch(&store.tickets[i], patch) {
        Ok(t) => t,
        Err(e) => {
            return Err(e);
        },
    };
    proof {
        assert forall|j: int|
            0 <= j < old(store).tickets@.len() && old(store).tickets@[j].id == ticket_id
                implies j == i as int by {
            if j < i as int {
                assert(old(store).tickets@[j].id < old(store).tickets@[i as int].id);
            }
            if j > i as int {
                assert(old(store).tickets@[i as int].id < old(store).tickets@[j].id);
            }
        }
    }
    store.update_ticket(ticket_id, updated)
}

} // verus!
