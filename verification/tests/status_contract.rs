use ticket_flow_core::status::can_transition;
use ticket_flow_core::TicketStatus::{Blocked, Doing, Done, Open, Review};
use ticket_flow_core::{
    CreateTicket, StatusPatch, StorePaths, Ticket, TicketIndex, TicketStatus, TicketStore,
};

fn store() -> TicketStore {
    TicketStore::new(StorePaths::new("/tmp/ticket-flow-status".to_owned()))
}

fn create(store: &TicketStore, title: &str) -> Ticket {
    store
        .create_ticket(
            CreateTicket::new(title.to_owned()),
            TicketIndex::new_default(),
            &Vec::new(),
            &Vec::new(),
        )
        .expect("create ticket")
        .ticket
}

fn patch(status: TicketStatus) -> StatusPatch {
    StatusPatch {
        status,
        artifact: None,
        evidence: None,
        note: None,
    }
}

#[test]
fn status_rejects_open_directly_to_done() {
    let store = store();
    let ticket = create(&store, "transition");
    let result = store.update_status(ticket, patch(TicketStatus::Done), TicketIndex::new_default());
    let error = result.err().expect("expected invalid transition");
    assert!(error.message().contains("invalid transition open -> done"));
}

#[test]
fn status_persists_artifact_evidence_and_note() {
    let store = store();
    let ticket = create(&store, "status fields");
    let updated = store
        .update_status(
            ticket,
            StatusPatch {
                status: TicketStatus::Doing,
                artifact: Some("artifact path".to_owned()),
                evidence: Some("test passed".to_owned()),
                note: Some("started".to_owned()),
            },
            TicketIndex::new_default(),
        )
        .expect("status")
        .ticket;
    assert_eq!(updated.artifacts[0].artifact_type, "artifact");
    assert_eq!(updated.artifacts[0].value, "artifact path");
    assert_eq!(updated.artifacts[1].artifact_type, "evidence");
    assert_eq!(updated.artifacts[1].value, "test passed");
    assert_eq!(updated.log[0].action, Some("open -> doing".to_owned()));
    assert_eq!(updated.log[0].note, Some("started".to_owned()));
}

#[test]
fn review_uses_existing_artifact() {
    let store = store();
    let ticket = create(&store, "review");
    let doing = store
        .update_status(
            ticket,
            StatusPatch {
                status: TicketStatus::Doing,
                artifact: Some("existing artifact".to_owned()),
                evidence: None,
                note: None,
            },
            TicketIndex::new_default(),
        )
        .expect("doing")
        .ticket;
    let reviewed = store
        .update_status(
            doing,
            StatusPatch {
                status: TicketStatus::Review,
                artifact: None,
                evidence: None,
                note: Some("ready".to_owned()),
            },
            TicketIndex::new_default(),
        )
        .expect("review")
        .ticket;
    assert_eq!(reviewed.status, TicketStatus::Review);
    assert_eq!(reviewed.artifacts.len(), 1);
    assert_eq!(reviewed.log[1].action, Some("doing -> review".to_owned()));
}

#[test]
fn review_without_any_artifact_is_refused() {
    let store = store();
    let ticket = create(&store, "no artifact");
    let doing = store
        .update_status(ticket, patch(TicketStatus::Doing), TicketIndex::new_default())
        .expect("doing")
        .ticket;
    let error = store
        .update_status(doing, patch(TicketStatus::Review), TicketIndex::new_default())
        .err()
        .expect("review needs an artifact");
    assert_eq!(error.message(), "review requires --artifact");
}

#[test]
fn done_ticket_leaves_index_and_is_archived_by_month() {
    let store = store();
    let created = store
        .create_ticket(
            CreateTicket::new("close me".to_owned()),
            TicketIndex::new_default(),
            &Vec::new(),
            &Vec::new(),
        )
        .expect("create");
    let id = created.ticket.id.clone();
    assert!(created.index.contains_key(&id));
    let doing = store
        .update_status(created.ticket, patch(TicketStatus::Doing), created.index)
        .expect("doing");
    let review = store
        .update_status(
            doing.ticket,
            StatusPatch {
                status: TicketStatus::Review,
                artifact: Some("pr".to_owned()),
                evidence: None,
                note: None,
            },
            doing.index,
        )
        .expect("review");
    assert_eq!(review.archive_month, None);
    let done = store
        .update_status(review.ticket, patch(TicketStatus::Done), review.index)
        .expect("done");
    assert!(!done.index.contains_key(&id));
    let closed = done.ticket.closed.clone().expect("closed is set");
    assert_eq!(done.archive_month, Some(closed[..7].to_owned()));
    assert_eq!(done.event.event_type, "ticket.status_changed");
    // A done ticket cannot move again.
    let again = store.update_status(done.ticket, patch(TicketStatus::Open), done.index);
    assert_eq!(
        again.err().expect("done is final").message(),
        "invalid transition done -> open"
    );
}

#[test]
fn transition_table_matches_workflow() {
    assert!(can_transition(Open, Doing));
    assert!(can_transition(Open, Blocked));
    assert!(!can_transition(Open, Review));
    assert!(!can_transition(Open, Done));
    assert!(can_transition(Doing, Review));
    assert!(can_transition(Doing, Open));
    assert!(can_transition(Review, Done));
    assert!(!can_transition(Blocked, Done));
    for to in [Open, Doing, Review, Blocked, Done] {
        assert!(!can_transition(Done, to));
    }
}
