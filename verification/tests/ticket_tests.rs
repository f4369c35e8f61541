//! Ticket creation, retrieval, full replacement and tri-state patching.

use ticketstore::auth::{create_user, logout, RequestUser};
use ticketstore::errors::ErrorKind;
use ticketstore::guard::guard;
use ticketstore::jwt::TokenService;
use ticketstore::patch::{FieldPatch, TicketPatch};
use ticketstore::store::Store;
use ticketstore::tickets::{
    ticket_create, ticket_get_all, ticket_get_single, ticket_update_atomic,
    ticket_update_partial, RequestTask, RequestTicket,
};

fn service() -> TokenService {
    TokenService::new(b"test-signing-secret".to_vec()).unwrap()
}

fn creation(title: &str) -> RequestTicket {
    RequestTicket { title: title.to_string(), description: None, priority: None }
}

/// A store with five tickets, ids 1 through 5, owned by nobody.
fn store_with_five_tickets() -> Store {
    let mut store = Store::new();
    for i in 1..=5 {
        store
            .insert_ticket(
                format!("Ticket {}", i),
                Some(format!("Description {}", i)),
                Some("high".to_string()),
                None,
            )
            .unwrap();
    }
    store
}

#[test]
fn register_create_logout_scenario() {
    // register alice/secret, create a ticket with her bearer token,
    // then log out and watch the same token fail the guard.
    let mut store = Store::new();
    let ts = service();
    let resp = create_user(&mut store, &ts, RequestUser {
        username: "alice".to_string(),
        password: "secret".to_string(),
    }, 1_000)
    .unwrap();
    assert!(!resp.token.is_empty());

    ticket_create(&mut store, &resp.token, creation("Fix bug")).unwrap();
    assert_eq!(store.tickets.len(), 1);
    assert_eq!(store.tickets[0].title, "Fix bug");
    assert_eq!(store.tickets[0].user_id, Some(resp.id));

    logout(&mut store, resp.id).unwrap();
    let header = format!("Bearer {}", resp.token);
    let err = guard(&store, &ts, Some(&header), 1_500).unwrap_err();
    assert_eq!(err.kind, ErrorKind::Unauthenticated);
}

#[test]
fn ticket_create_requires_a_held_token() {
    let mut store = Store::new();
    let token = "nobody-holds-this".to_string();
    let err = ticket_create(&mut store, &token, creation("Fix bug")).unwrap_err();
    assert_eq!(err.kind, ErrorKind::Unauthenticated);
    assert_eq!(store.tickets.len(), 0);
}

#[test]
fn ticket_create_rejects_empty_title() {
    let mut store = Store::new();
    let ts = service();
    let resp = create_user(&mut store, &ts, RequestUser {
        username: "alice".to_string(),
        password: "secret".to_string(),
    }, 1_000)
    .unwrap();
    let err = ticket_create(&mut store, &resp.token, creation("")).unwrap_err();
    assert_eq!(err.kind, ErrorKind::Malformed);
    assert_eq!(store.tickets.len(), 0);
}

#[test]
fn get_single_and_get_all_render_rows() {
    let store = store_with_five_tickets();
    let one = ticket_get_single(&store, 3).unwrap();
    assert_eq!(one.id, 3);
    assert_eq!(one.title, "Ticket 3");
    assert_eq!(one.description, Some("Description 3".to_string()));
    assert_eq!(one.priority, Some("high".to_string()));
    assert_eq!(one.user_id, None);

    let all = ticket_get_all(&store);
    assert_eq!(all.len(), 5);
    assert_eq!(all[0].id, 1);
    assert_eq!(all[4].title, "Ticket 5");

    let err = ticket_get_single(&store, 6).unwrap_err();
    assert_eq!(err.kind, ErrorKind::NotFound);
}

#[test]
fn atomic_update_replaces_every_field() {
    let mut store = store_with_five_tickets();
    ticket_update_atomic(&mut store, 2, RequestTask {
        id: None,
        priority: None,
        title: "Replaced".to_string(),
        completed_at: Some(9_000),
        description: None,
        deleted_at: None,
        user_id: Some(7),
        in_progress: Some(true),
    })
    .unwrap();
    let t = &store.tickets[1];
    assert_eq!(t.id, 2);
    assert_eq!(t.title, "Replaced");
    // unset optional fields become null, not "unchanged"
    assert_eq!(t.description, None);
    assert_eq!(t.priority, None);
    assert_eq!(t.completed_at, Some(9_000));
    assert_eq!(t.user_id, Some(7));
    assert_eq!(t.in_progress, Some(true));
    // the neighbours are untouched
    assert_eq!(store.tickets[0].title, "Ticket 1");
    assert_eq!(store.tickets[2].title, "Ticket 3");
}

#[test]
fn atomic_update_errors() {
    let mut store = store_with_five_tickets();
    let missing = ticket_update_atomic(&mut store, 9, RequestTask {
        id: None,
        priority: None,
        title: "x".to_string(),
        completed_at: None,
        description: None,
        deleted_at: None,
        user_id: None,
        in_progress: None,
    })
    .unwrap_err();
    assert_eq!(missing.kind, ErrorKind::NotFound);
    let empty = ticket_update_atomic(&mut store, 1, RequestTask {
        id: None,
        priority: None,
        title: String::new(),
        completed_at: None,
        description: None,
        deleted_at: None,
        user_id: None,
        in_progress: None,
    })
    .unwrap_err();
    assert_eq!(empty.kind, ErrorKind::Malformed);
    assert_eq!(store.tickets[0].title, "Ticket 1");
}

#[test]
fn partial_update_null_clears_and_omission_keeps() {
    // body {"priority": null}: the stored priority becomes null and the
    // title stays; an empty body changes nothing.
    let mut store = store_with_five_tickets();
    let mut patch = TicketPatch::absent();
    patch.priority = FieldPatch::SetNull;
    ticket_update_partial(&mut store, 5, patch).unwrap();
    assert_eq!(store.tickets[4].priority, None);
    assert_eq!(store.tickets[4].title, "Ticket 5");
    assert_eq!(store.tickets[4].description, Some("Description 5".to_string()));

    ticket_update_partial(&mut store, 5, TicketPatch::absent()).unwrap();
    assert_eq!(store.tickets[4].priority, None);
    assert_eq!(store.tickets[4].title, "Ticket 5");
    assert_eq!(store.tickets[4].description, Some("Description 5".to_string()));
    assert_eq!(store.tickets[4].id, 5);
}

#[test]
fn partial_update_title_leaves_description() {
    // {title: SetValue("x")} must not clobber a non-null description,
    // while {description: SetNull} clears it whatever it was.
    let mut store = store_with_five_tickets();
    let mut patch = TicketPatch::absent();
    patch.title = Some("x".to_string());
    ticket_update_partial(&mut store, 1, patch).unwrap();
    assert_eq!(store.tickets[0].title, "x");
    assert_eq!(store.tickets[0].description, Some("Description 1".to_string()));

    let mut patch = TicketPatch::absent();
    patch.description = FieldPatch::SetNull;
    ticket_update_partial(&mut store, 1, patch).unwrap();
    assert_eq!(store.tickets[0].title, "x");
    assert_eq!(store.tickets[0].description, None);
}

#[test]
fn partial_update_is_idempotent() {
    let mut store = store_with_five_tickets();
    // the patch is consumed per application, so rebuild it each time
    let patch = || TicketPatch {
        title: Some("Renamed".to_string()),
        description: FieldPatch::SetNull,
        priority: FieldPatch::SetValue("low".to_string()),
        completed_at: FieldPatch::SetValue(123),
        deleted_at: FieldPatch::Absent,
        in_progress: FieldPatch::SetValue(false),
    };
    ticket_update_partial(&mut store, 4, patch()).unwrap();
    let once = format!("{:?}", store.tickets[3]);
    ticket_update_partial(&mut store, 4, patch()).unwrap();
    let twice = format!("{:?}", store.tickets[3]);
    assert_eq!(once, twice);
    assert_eq!(store.tickets[3].title, "Renamed");
    assert_eq!(store.tickets[3].description, None);
    assert_eq!(store.tickets[3].priority, Some("low".to_string()));
    assert_eq!(store.tickets[3].completed_at, Some(123));
    assert_eq!(store.tickets[3].in_progress, Some(false));
}

#[test]
fn partial_update_errors() {
    let mut store = store_with_five_tickets();
    let missing = ticket_update_partial(&mut store, 9, TicketPatch::absent()).unwrap_err();
    assert_eq!(missing.kind, ErrorKind::NotFound);

    let mut patch = TicketPatch::absent();
    patch.title = Some(String::new());
    let empty = ticket_update_partial(&mut store, 1, patch).unwrap_err();
    assert_eq!(empty.kind, ErrorKind::Malformed);
    assert_eq!(store.tickets[0].title, "Ticket 1");
}

#[test]
fn partial_update_can_set_timestamps() {
    // logical deletion: the row stays, the timestamp is set.
    let mut store = store_with_five_tickets();
    let mut patch = TicketPatch::absent();
    patch.deleted_at = FieldPatch::SetValue(777);
    ticket_update_partial(&mut store, 2, patch).unwrap();
    assert_eq!(store.tickets[1].deleted_at, Some(777));
    assert_eq!(store.tickets.len(), 5);
}
