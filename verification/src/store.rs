//! The persistence model the core is specified against.
//!
//! The provider keeps user rows (id, unique username, password hash,
//! current token — none means logged out) and ticket rows. Records are
//! never physically removed. Identifiers are assigned here, strictly
//! increasing, so they are unique; usernames are kept unique on insert.
//! The real database sits outside the library and is expected to meet
//! these same contracts; every flow in the library is verified against
//! them.

use vstd::prelude::*;
use vstd::pervasive::VecAdditionalExecFns;

use crate::errors::ApiError;
use crate::errors::ErrorKind;

verus! {

/// A user row: identity, unique username, stored password hash, and the
/// at most one currently valid token (none while logged out).
#[derive(Debug)]
pub struct User {
    pub id: i32,
    pub username: String,
    pub password: String,
    pub token: Option<String>,
}

/// A ticket row. The title is required; everything else is nullable.
/// Deletion is logical: a set `deleted_at` timestamp. Timestamps are
/// seconds since the epoch.
#[derive(Debug)]
pub struct Ticket {
    pub id: i32,
    pub title: String,
    pub description: Option<String>,
    pub priority: Option<String>,
    pub completed_at: Option<i64>,
    pub deleted_at: Option<i64>,
    pub user_id: Option<i32>,
    pub in_progress: Option<bool>,
}

/// Whether some row carries this username.
pub open spec fn has_username(users: Seq<User>, name: Seq<char>) -> bool {
    exists|i: int| 0 <= i < users.len() && #[trigger] users[i].username@ == name
}

/// Whether some row's current token is this token.
pub open spec fn has_user_with_token(users: Seq<User>, token: Seq<char>) -> bool {
    exists|i: int| 0 <= i < users.len() && #[trigger] users[i].token.deep_view() == Some(token)
}

/// Whether some row carries this user id.
pub open spec fn has_user_id(users: Seq<User>, id: i32) -> bool {
    exists|i: int| 0 <= i < users.len() && #[trigger] users[i].id == id
}

/// Whether some row carries this ticket id.
pub open spec fn has_ticket_id(tickets: Seq<Ticket>, id: i32) -> bool {
    exists|i: int| 0 <= i < tickets.len() && #[trigger] tickets[i].id == id
}

/// Two user rows that agree on everything but the token field.
pub open spec fn same_user_except_token(a: User, b: User) -> bool {
    a.id == b.id && a.username@ == b.username@ && a.password@ == b.password@
}

/// Two ticket rows that agree on every field but the id.
pub open spec fn same_ticket_except_id(a: Ticket, b: Ticket) -> bool {
    &&& a.title@ == b.title@
    &&& a.description.deep_view() == b.description.deep_view()
    &&& a.priority.deep_view() == b.priority.deep_view()
    &&& a.completed_at == b.completed_at
    &&& a.deleted_at == b.deleted_at
    &&& a.user_id == b.user_id
    &&& a.in_progress == b.in_progress
}

/// The in-memory persistence provider.
#[derive(Debug)]
pub struct Store {
    pub users: Vec<User>,
    pub tickets: Vec<Ticket>,
    pub next_user_id: i32,
    pub next_ticket_id: i32,
}

impl Store {
    /// Well-formedness: identifiers are positive, strictly increasing in
    /// row order and below the next free one, and usernames are unique.
    pub open spec fn wf(&self) -> bool {
        &&& 1 <= self.next_user_id
        &&& 1 <= self.next_ticket_id
        &&& forall|i: int| 0 <= i < self.users@.len() ==> 1 <= #[trigger] self.users@[i].id < self.next_user_id
        &&& forall|i: int, j: int|
            0 <= i < j < self.users@.len() ==> #[trigger] self.users@[i].id < #[trigger] self.users@[j].id
        &&& forall|i: int, j: int|
            0 <= i < j < self.users@.len()
                ==> #[trigger] self.users@[i].username@ != #[trigger] self.users@[j].username@
        &&& forall|i: int| 0 <= i < self.tickets@.len() ==> 1 <= #[trigger] self.tickets@[i].id < self.next_ticket_id
        &&& forall|i: int, j: int|
            0 <= i < j < self.tickets@.len() ==> #[trigger] self.tickets@[i].id < #[trigger] self.tickets@[j].id
    }

    /// An empty provider.
    pub fn new() -> (s: Store)
        ensures
            s.wf(),
            s.users@.len() == 0,
            s.tickets@.len() == 0,
    {
        Store { users: Vec::new(), tickets: Vec::new(), next_user_id: 1, next_ticket_id: 1 }
    }

    /// Find the row holding this username, if any.
    pub fn find_user_by_username(&self, name: &String) -> (r: Option<usize>)
        ensures
            r matches Some(i) ==> i < self.users@.len() && self.users@[i as int].username@ == name@,
            r is None ==> !has_username(self.users@, name@),
    {
        let n = self.users.len();
        let mut i: usize = 0;
        while i < n
            invariant
                n == self.users@.len(),
                i <= n,
                forall|j: int| 0 <= j < i ==> #[trigger] self.users@[j].username@ != name@,
            decreases n - i,
        {
            if self.users[i].username.eq(name) {
                return Some(i);
            }
            i = i + 1;
        }
        None
    }

    /// Find the row whose current token is this token, if any.
    pub fn find_user_by_token(&self, token: &String) -> (r: Option<usize>)
        ensures
            r matches Some(i) ==> i < self.users@.len()
                && self.users@[i as int].token.deep_view() == Some(token@),
            r is None ==> !has_user_with_token(self.users@, token@),
    {
        let n = self.users.len();
        let mut i: usize = 0;
        while i < n
            invariant
                n == self.users@.len(),
                i <= n,
                forall|j: int| 0 <= j < i ==> #[trigger] self.users@[j].token.deep_view() != Some(token@),
            decreases n - i,
        {
            match &self.users[i].token {
                Some(t) => {
                    if t.eq(token) {
                        return Some(i);
                    }
                },
                None => {},
            }
            i = i + 1;
        }
        None
    }

    /// Find the row holding this user id, if any.
    pub fn find_user_by_id(&self, id: i32) -> (r: Option<usize>)
        ensures
            r matches Some(i) ==> i < self.users@.len() && self.users@[i as int].id == id,
            r is None ==> !has_user_id(self.users@, id),
    {
        let n = self.users.len();
        let mut i: usize = 0;
        while i < n
            invariant
                n == self.users@.len(),
                i <= n,
                forall|j: int| 0 <= j < i ==> #[trigger] self.users@[j].id != id,
            decreases n - i,
        {
            if self.users[i].id == id {
                return Some(i);
            }
            i = i + 1;
        }
        None
    }

    /// Find the row holding this ticket id, if any.
    pub fn find_ticket_by_id(&self, id: i32) -> (r: Option<usize>)
        ensures
            r matches Some(i) ==> i < self.tickets@.len() && self.tickets@[i as int].id == id,
            r is None ==> !has_ticket_id(self.tickets@, id),
    {
        let n = self.tickets.len();
        let mut i: usize = 0;
        while i < n
            invariant
                n == self.tickets@.len(),
                i <= n,
                forall|j: int| 0 <= j < i ==> #[trigger] self.tickets@[j].id != id,
            decreases n - i,
        {
            if self.tickets[i].id == id {
                return Some(i);
            }
            i = i + 1;
        }
        None
    }

    /// All ticket rows, in insertion order.
    pub fn list_tickets(&self) -> (r: &Vec<Ticket>)
        ensures
            r@ == self.tickets@,
    {
        &self.tickets
    }

    /// Insert a user row with a fresh id. Fails with Conflict when the
    /// username is already taken (the provider enforces uniqueness) and
    /// as an internal fault when the id space is exhausted.
    pub fn insert_user(&mut self, username: String, password: String, token: Option<String>) -> (r:
        Result<i32, ApiError>)
        requires
            old(self).wf(),
        ensures
            final(self).wf(),
            final(self).tickets@ == old(self).tickets@,
            (r is Ok) <==> (!has_username(old(self).users@, username@) && old(self).next_user_id
                < i32::MAX),
            r matches Ok(id) ==> {
                &&& id == old(self).next_user_id
                &&& final(self).users@.len() == old(self).users@.len() + 1
                &&& forall|j: int|
                    0 <= j < old(self).users@.len() ==> final(self).users@[j] == old(self).users@[j]
                &&& final(self).users@.last().id == id
                &&& final(self).users@.last().username@ == username@
                &&& final(self).users@.last().password@ == password@
                &&& final(self).users@.last().token.deep_view() == token.deep_view()
            },
            r matches Err(e) ==> {
                &&& *final(self) == *old(self)
                &&& e.kind == (if has_username(old(self).users@, username@) {
                    ErrorKind::Conflict
                } else {
                    ErrorKind::InternalError
                })
            },
    {
        match self.find_user_by_username(&username) {
            Some(_) => Err(ApiError::new(ErrorKind::Conflict, "Username already taken")),
            None => {
                if self.next_user_id == i32::MAX {
                    return Err(ApiError::new(ErrorKind::InternalError, "Id space exhausted"));
                }
                let id = self.next_user_id;
                self.users.push(User { id, username, password, token });
                self.next_user_id = id + 1;
                Ok(id)
            },
        }
    }

    /// Replace the current token of the user row holding this id (a
    /// value logs the user in, none logs it out); every other row and
    /// field is untouched. Fails with NotFound when no row holds the id.
    pub fn update_user_token(&mut self, id: i32, token: Option<String>) -> (r: Result<(), ApiError>)
        requires
            old(self).wf(),
        ensures
            final(self).wf(),
            final(self).tickets@ == old(self).tickets@,
            (r is Ok) <==> has_user_id(old(self).users@, id),
            r is Ok ==> {
                &&& final(self).users@.len() == old(self).users@.len()
                &&& forall|j: int|
                    0 <= j < old(self).users@.len() && old(self).users@[j].id != id
                        ==> final(self).users@[j] == old(self).users@[j]
                &&& forall|j: int|
                    0 <= j < old(self).users@.len() && old(self).users@[j].id == id ==> {
                        &&& same_user_except_token(final(self).users@[j], old(self).users@[j])
                        &&& final(self).users@[j].token.deep_view() == token.deep_view()
                    }
            },
            r matches Err(e) ==> *final(self) == *old(self) && e.kind == ErrorKind::NotFound,
    {
        match self.find_user_by_id(id) {
            Some(i) => {
                let updated = User {
                    id: self.users[i].id,
                    username: self.users[i].username.clone(),
                    password: self.users[i].password.clone(),
                    token,
                };
                self.users.set(i, updated);
                proof {
                    assert forall|j: int|
                        0 <= j < old(self).users@.len() && old(self).users@[j].id == id
                            implies j == i as int by {
                        if j < i as int {
                            assert(old(self).users@[j].id < old(self).users@[i as int].id);
                        }
                        if j > i as int {
                            assert(old(self).users@[i as int].id < old(self).users@[j].id);
                        }
                    }
                }
                Ok(())
            },
            None => Err(ApiError::new(ErrorKind::NotFound, "Requested user not found")),
        }
    }

    /// Insert a ticket row with a fresh id, the given creation fields,
    /// and everything else null. Fails only when the id space is
    /// exhausted, an internal fault.
    pub fn insert_ticket(
        &mut self,
        title: String,
        description: Option<String>,
        priority: Option<String>,
        user_id: Option<i32>,
    ) -> (r: Result<i32, ApiError>)
        requires
            old(self).wf(),
        ensures
            final(self).wf(),
            final(self).users@ == old(self).users@,
            (r is Ok) <==> old(self).next_ticket_id < i32::MAX,
            r matches Ok(id) ==> {
                &&& id == old(self).next_ticket_id
                &&& final(self).tickets@.len() == old(self).tickets@.len() + 1
                &&& forall|j: int|
                    0 <= j < old(self).tickets@.len() ==> final(self).tickets@[j] == old(
                        self,
                    ).tickets@[j]
                &&& final(self).tickets@.last().id == id
                &&& final(self).tickets@.last().title@ == title@
                &&& final(self).tickets@.last().description.deep_view() == description.deep_view()
                &&& final(self).tickets@.last().priority.deep_view() == priority.deep_view()
                &&& final(self).tickets@.last().completed_at is None
                &&& final(self).tickets@.last().deleted_at is None
                &&& final(self).tickets@.last().user_id == user_id
                &&& final(self).tickets@.last().in_progress is None
            },
            r matches Err(e) ==> *final(self) == *old(self) && e.kind == ErrorKind::InternalError,
    {
        if self.next_ticket_id == i32::MAX {
            return Err(ApiError::new(ErrorKind::InternalError, "Id space exhausted"));
        }
        let id = self.next_ticket_id;
        self.tickets.push(
            Ticket {
                id,
                title,
                description,
                priority,
                completed_at: None,
                deleted_at: None,
                user_id,
                in_progress: None,
            },
        );
        self.next_ticket_id = id + 1;
        Ok(id)
    }

    /// Replace, in one step, every field but the id of the ticket row
    /// holding this id; every other row is untouched. Fails with
    /// NotFound when no row holds the id.
    pub fn update_ticket(&mut self, id: i32, fields: Ticket) -> (r: Result<(), ApiError>)
        requires
            old(self).wf(),
        ensures
            final(self).wf(),
            final(self).users@ == old(self).users@,
            (r is Ok) <==> has_ticket_id(old(self).tickets@, id),
            r is Ok ==> {
                &&& final(self).tickets@.len() == old(self).tickets@.len()
                &&& forall|j: int|
                    0 <= j < old(self).tickets@.len() && old(self).tickets@[j].id != id
                        ==> final(self).tickets@[j] == old(self).tickets@[j]
                &&& forall|j: int|
                    0 <= j < old(self).tickets@.len() && old(self).tickets@[j].id == id ==> {
                        &&& final(self).tickets@[j].id == id
                        &&& same_ticket_except_id(final(self).tickets@[j], fields)
                    }
            },
            r matches Err(e) ==> *final(self) == *old(self) && e.kind == ErrorKind::NotFound,
    {
        match self.find_ticket_by_id(id) {
            Some(i) => {
                let updated = Ticket {
                    id: self.tickets[i].id,
                    title: fields.title,
                    description: fields.description,
                    priority: fields.priority,
                    completed_at: fields.completed_at,
                    deleted_at: fields.deleted_at,
                    user_id: fields.user_id,
                    in_progress: fields.in_progress,
                };
                self.tickets.set(i, updated);
                proof {
                    assert forall|j: int|
                        0 <= j < old(self).tickets@.len() && old(self).tickets@[j].id == id
                            implies j == i as int by {
                        if j < i as int {
                            assert(old(self).tickets@[j].id < old(self).tickets@[i as int].id);
                        }
                        if j > i as int {
                            assert(old(self).tickets@[i as int].id < old(self).tickets@[j].id);
                        }
                    }
                }
                Ok(())
            },
            None => Err(ApiError::new(ErrorKind::NotFound, "No ticket found")),
        }
    }
}

} // verus!
