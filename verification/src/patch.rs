//! Tri-state partial updates of ticket records.
//!
//! For each mutable, nullable field a patch says one of three things:
//! leave the field untouched, clear it to null, or set it to a value.
//! Omission must never be conflated with explicit nulling — that
//! distinction is the core invariant of partial updates. The title,
//! which is required and cannot be null, only offers absent-or-value.
//! A set value passes the same validation as on creation: the title
//! must stay non-empty.

use vstd::prelude::*;

use crate::errors::ApiError;
use crate::errors::ErrorKind;
use crate::store::Ticket;
use crate::store::same_ticket_except_id;

verus! {

/// What a patch says about one nullable field.
#[derive(Debug)]
pub enum FieldPatch<T> {
    /// The field was omitted: leave the current value untouched.
    Absent,
    /// The field was given explicitly as null: clear it.
    SetNull,
    /// The field was given a value: replace the current one.
    SetValue(T),
}

/// A tri-state patch over the mutable fields of a ticket. The title is
/// required on the record, so a patch can only keep or replace it.
#[derive(Debug)]
pub struct TicketPatch {
    pub title: Option<String>,
    pub description: FieldPatch<String>,
    pub priority: FieldPatch<String>,
    pub completed_at: FieldPatch<i64>,
    pub deleted_at: FieldPatch<i64>,
    pub in_progress: FieldPatch<bool>,
}

/// The new value of one field under a patch entry.
pub open spec fn patch_field<T>(cur: Option<T>, p: FieldPatch<T>) -> Option<T> {
    match p {
        FieldPatch::Absent => cur,
        FieldPatch::SetNull => None,
        FieldPatch::SetValue(v) => Some(v),
    }
}

/// The record a patch produces: untouched fields keep the record's
/// current value, cleared fields become null, set fields take the given
/// value; id and owner are never part of a patch.
pub open spec fn patched(t: Ticket, p: TicketPatch) -> Ticket {
    Ticket {
        id: t.id,
        title: match p.title {
            Some(s) => s,
            None => t.title,
        },
        description: patch_field(t.description, p.description),
        priority: patch_field(t.priority, p.priority),
        completed_at: patch_field(t.completed_at, p.completed_at),
        deleted_at: patch_field(t.deleted_at, p.deleted_at),
        user_id: t.user_id,
        in_progress: patch_field(t.in_progress, p.in_progress),
    }
}

/// A patch is acceptable when every value it sets would also be
/// accepted on creation: a replaced title must be non-empty.
pub open spec fn patch_valid(p: TicketPatch) -> bool {
    p.title matches Some(s) ==> s@.len() > 0
}

/// A patch that says nothing about any field.
pub open spec fn is_empty_patch(p: TicketPatch) -> bool {
    &&& p.title is None
    &&& p.description is Absent
    &&& p.priority is Absent
    &&& p.completed_at is Absent
    &&& p.deleted_at is Absent
    &&& p.in_progress is Absent
}

impl TicketPatch {
    /// The patch that leaves every field untouched.
    pub fn absent() -> (p: TicketPatch)
        ensures
            is_empty_patch(p),
    {
        TicketPatch {
            title: None,
            description: FieldPatch::Absent,
            priority: FieldPatch::Absent,
            completed_at: FieldPatch::Absent,
            deleted_at: FieldPatch::Absent,
            in_progress: FieldPatch::Absent,
        }
    }
}

/// Apply a patch to a record, producing the updated record without
/// touching the given one; rejected as malformed exactly when the patch
/// sets an empty title.
pub fn apply_patch(t: &Ticket, p: TicketPatch) -> (r: Result<Ticket, ApiError>)
    ensures
        (r is Ok) == patch_valid(p),
        r matches Ok(u) ==> same_ticket_except_id(u, patched(*t, p)) && u.id == t.id,
        r matches Err(e) ==> e.kind == ErrorKind::Malformed,
{
    let title = match p.title {
        Some(s) => {
            if s.as_str().is_empty() {
                return Err(ApiError::new(ErrorKind::Malformed, "Title must not be empty"));
            }
            s
        },
        None => t.title.clone(),
    };
    let description = match p.description {
        FieldPatch::Absent => match &t.description {
            Some(d) => Some(d.clone()),
            None => None,
        },
        FieldPatch::SetNull => None,
        FieldPatch::SetValue(v) => Some(v),
    };
    let priority = match p.priority {
        FieldPatch::Absent => match &t.priority {
            Some(d) => Some(d.clone()),
            None => None,
        },
        FieldPatch::SetNull => None,
        FieldPatch::SetValue(v) => Some(v),
    };
    let completed_at = match p.completed_at {
        FieldPatch::Absent => t.completed_at,
        FieldPatch::SetNull => None,
        FieldPatch::SetValue(v) => Some(v),
    };
    let deleted_at = match p.deleted_at {
        FieldPatch::Absent => t.deleted_at,
        FieldPatch::SetNull => None,
        FieldPatch::SetValue(v) => Some(v),
    };
    let in_progress = match p.in_progress {
        FieldPatch::Absent => t.in_progress,
        FieldPatch::SetNull => None,
        FieldPatch::SetValue(v) => Some(v),
    };
    Ok(Ticket {
        id: t.id,
        title,
        description,
        priority,
        completed_at,
        deleted_at,
        user_id: t.user_id,
        in_progress,
    })
}

/// Law: a patch is idempotent — applying the same patch twice yields
/// the same record as applying it once.
pub proof fn lemma_patch_idempotent(t: Ticket, p: TicketPatch)
    ensures
        patched(patched(t, p), p) == patched(t, p),
{
}

/// Law: absence differs from explicit null. A field the patch omits
/// keeps the record's current value whatever it is — in particular a
/// patch that only replaces the title leaves the description alone —
/// while a field the patch clears becomes null regardless of its prior
/// value.
pub proof fn lemma_absent_vs_null(t: Ticket, p: TicketPatch)
    ensures
        p.title is None ==> patched(t, p).title == t.title,
        p.description is Absent ==> patched(t, p).description == t.description,
        p.description is SetNull ==> patched(t, p).description is None,
        p.priority is Absent ==> patched(t, p).priority == t.priority,
        p.priority is SetNull ==> patched(t, p).priority is None,
        p.completed_at is Absent ==> patched(t, p).completed_at == t.completed_at,
        p.completed_at is SetNull ==> patched(t, p).completed_at is None,
        p.deleted_at is Absent ==> patched(t, p).deleted_at == t.deleted_at,
        p.deleted_at is SetNull ==> patched(t, p).deleted_at is None,
        p.in_progress is Absent ==> patched(t, p).in_progress == t.in_progress,
        p.in_progress is SetNull ==> patched(t, p).in_progress is None,
{
}

/// Law: the empty patch changes nothing at all.
pub proof fn lemma_empty_patch_is_noop(t: Ticket, p: TicketPatch)
    ensures
        is_empty_patch(p) ==> patched(t, p) == t,
{
}

} // verus!
