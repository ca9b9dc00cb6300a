use ticket_flow_core::import::SourceTicket;
use ticket_flow_core::model::LinkMap;
use ticket_flow_core::{StorePaths, Ticket, TicketId, TicketIndex, TicketStatus, TicketStore};

fn fixture(id: &str, title: &str, status: TicketStatus, updated: &str, closed: Option<&str>) -> Ticket {
    Ticket {
        id: TicketId::parse(id).expect("fixture id"),
        title: title.to_owned(),
        status,
        priority: "medium".to_owned(),
        ticket_type: "chore".to_owned(),
        source: None,
        goal: String::new(),
        acceptance: Vec::new(),
        tags: Vec::new(),
        artifacts: Vec::new(),
        links: LinkMap::empty(),
        parent: None,
        children: Vec::new(),
        assignee: "iyen".to_owned(),
        created: "2026-06-30T00:00:00Z".to_owned(),
        updated: updated.to_owned(),
        closed: closed.map(ToOwned::to_owned),
        log: Vec::new(),
        current: None,
        shared: None,
        coordination: None,
        evidence: None,
        execution: None,
        memory: None,
        local: None,
        extra: Vec::new(),
    }
}

fn source(ticket: Ticket, month: Option<&str>) -> SourceTicket {
    SourceTicket {
        ticket,
        source_archive_month: month.map(ToOwned::to_owned),
    }
}

fn store() -> TicketStore {
    TicketStore::new(StorePaths::new("/tmp/ticket-flow-import".to_owned()))
}

#[test]
fn import_store_copies_active_archived_index_events_and_leaves_source() {
    let sources = vec![
        source(
            fixture("T-20260630-001", "import active", TicketStatus::Open, "2026-06-30T00:00:00Z", None),
            None,
        ),
        source(
            fixture(
                "T-20260630-002",
                "import done from active",
                TicketStatus::Done,
                "2026-06-30T00:00:00Z",
                Some("2026-07-08T00:00:00Z"),
            ),
            None,
        ),
        source(
            fixture("T-20260629-001", "import archived", TicketStatus::Done, "2026-06-29T00:00:00Z", None),
            Some("2026-06"),
        ),
    ];
    let plan = store()
        .plan_import("/source", sources, TicketIndex::new_default(), &Vec::new())
        .expect("import plan");
    assert_eq!(plan.summary.imported, 3);
    assert_eq!(plan.summary.active, 1);
    assert_eq!(plan.summary.archived, 2);
    assert_eq!(plan.tickets[0].archive_month, None);
    assert_eq!(plan.tickets[1].archive_month, Some("2026-07".to_owned()));
    assert_eq!(plan.tickets[2].archive_month, Some("2026-06".to_owned()));
    let active_id = TicketId::parse("T-20260630-001").expect("id");
    let done_id = TicketId::parse("T-20260630-002").expect("id");
    assert!(plan.index.contains_key(&active_id));
    assert!(!plan.index.contains_key(&done_id));
    for imported in &plan.tickets {
        assert_eq!(imported.event.event_type, "ticket.imported");
        assert_eq!(imported.event.ticket_id, imported.ticket.id);
    }
    assert_eq!(plan.tickets[0].ticket.title, "import active");
}

#[test]
fn import_store_rejects_duplicate_source_ids() {
    let sources = vec![
        source(
            fixture("T-20260630-003", "active", TicketStatus::Open, "2026-06-30T00:00:00Z", None),
            None,
        ),
        source(
            fixture("T-20260630-003", "archived", TicketStatus::Done, "2026-06-30T00:00:00Z", None),
            Some("2026-06"),
        ),
    ];
    let error = store()
        .plan_import("/source", sources, TicketIndex::new_default(), &Vec::new())
        .err()
        .expect("expected duplicate source");
    assert!(error.message().contains("duplicate source ticket T-20260630-003"));
}

#[test]
fn import_store_rejects_destination_collision_without_overwrite() {
    let sources = vec![source(
        fixture(
            "T-20260630-004",
            "source must not overwrite",
            TicketStatus::Open,
            "2026-06-30T00:00:00Z",
            None,
        ),
        None,
    )];
    let destination = vec![TicketId::parse("T-20260630-004").expect("id")];
    let error = store()
        .plan_import("/source", sources, TicketIndex::new_default(), &destination)
        .err()
        .expect("expected destination collision");
    assert!(error
        .message()
        .contains("duplicate destination ticket T-20260630-004"));
}

#[test]
fn duplicate_sources_are_reported_before_collisions() {
    let sources = vec![
        source(fixture("T-20260630-005", "a", TicketStatus::Open, "x", None), None),
        source(fixture("T-20260630-005", "b", TicketStatus::Open, "x", None), None),
    ];
    let destination = vec![TicketId::parse("T-20260630-005").expect("id")];
    let error = store()
        .plan_import("/source", sources, TicketIndex::new_default(), &destination)
        .err()
        .expect("rejected");
    assert_eq!(error.message(), "duplicate source ticket T-20260630-005");
}

#[test]
fn import_archive_month_falls_back_to_updated_then_unknown() {
    let sources = vec![
        source(fixture("T-20260630-006", "a", TicketStatus::Done, "2025-12-01T00:00:00Z", Some("soon")), None),
        source(fixture("T-20260630-007", "b", TicketStatus::Done, "later", None), None),
    ];
    let plan = store()
        .plan_import("/source", sources, TicketIndex::new_default(), &Vec::new())
        .expect("plan");
    assert_eq!(plan.tickets[0].archive_month, Some("2025-12".to_owned()));
    assert_eq!(plan.tickets[1].archive_month, Some("unknown".to_owned()));
    assert_eq!(plan.summary.line(), "imported 2 ticket(s): active=0 archived=2");
}

#[test]
fn import_names_the_first_colliding_source() {
    let sources = vec![
        source(fixture("T-20260630-011", "a", TicketStatus::Open, "x", None), None),
        source(fixture("T-20260630-012", "b", TicketStatus::Open, "x", None), None),
        source(fixture("T-20260630-013", "c", TicketStatus::Open, "x", None), None),
    ];
    let destination = vec![
        TicketId::parse("T-20260630-013").expect("id"),
        TicketId::parse("T-20260630-012").expect("id"),
    ];
    let error = store()
        .plan_import("/source", sources, TicketIndex::new_default(), &destination)
        .err()
        .expect("rejected");
    assert_eq!(error.message(), "duplicate destination ticket T-20260630-012");
}

#[test]
fn import_names_the_first_repeated_source() {
    let sources = vec![
        source(fixture("T-20260630-021", "a", TicketStatus::Open, "x", None), None),
        source(fixture("T-20260630-022", "b", TicketStatus::Open, "x", None), None),
        source(fixture("T-20260630-022", "c", TicketStatus::Open, "x", None), None),
        source(fixture("T-20260630-021", "d", TicketStatus::Open, "x", None), None),
    ];
    let error = store()
        .plan_import("/source", sources, TicketIndex::new_default(), &Vec::new())
        .err()
        .expect("rejected");
    assert_eq!(error.message(), "duplicate source ticket T-20260630-022");
}
