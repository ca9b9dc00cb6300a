use ticket_flow_core::clawhip::{
    clawhip_enabled, clawhip_mode, clawhip_timeout_ms, delivery_endpoint, event_endpoint,
    question_summary, repo_name, resolve_text, ClawhipEventKind, ClawhipSendMode,
};
use ticket_flow_core::clock::{now_rfc3339, today_yyyymmdd};
use ticket_flow_core::context_pack::parse_audience;
use ticket_flow_core::event::EventEnvelope;
use ticket_flow_core::event::EventPayload;
use ticket_flow_core::gates::{done_gate, next_action_gate, review_gate};
use ticket_flow_core::input::{parse_approval_decision, parse_optional_next_action, parse_source};
use ticket_flow_core::mcp::McpTool;
use ticket_flow_core::order::{ids_in_listing_order, text_lt};
use ticket_flow_core::store::{archive_month_for_ticket, archive_month_from_timestamp, is_archive_month};
use ticket_flow_core::text::{decimal_string, pad_zeros, parse_unsigned, trim};
use ticket_flow_core::{
    ack_handoff, board, coordination, request_approval, request_handoff, respond_approval, review,
    AddLogInput, ApprovalDecision, ApprovalRequest, CheckpointPatch, CreateTicket, HandoffAck,
    HandoffRequest, LinkKind, LinkTicketInput, NextActionType, StatusPatch, StorePaths, Ticket,
    TicketFlowError, TicketId, TicketIndex, TicketStatus, TicketStore,
};

fn store() -> TicketStore {
    TicketStore::new(StorePaths::new("/tmp/ticket-flow-laws".to_owned()))
}

fn create(title: &str) -> Ticket {
    store()
        .create_ticket(
            CreateTicket::new(title.to_owned()),
            TicketIndex::new_default(),
            &Vec::new(),
            &Vec::new(),
        )
        .expect("create")
        .ticket
}

fn id(text: &str) -> TicketId {
    TicketId::parse(text).expect("id")
}

fn is_hyphenated_uuid(s: &str) -> bool {
    s.len() == 36
        && s.char_indices().all(|(i, c)| {
            if [8, 13, 18, 23].contains(&i) {
                c == '-'
            } else {
                c.is_ascii_digit() || ('a'..='f').contains(&c)
            }
        })
}

#[test]
fn next_id_is_one_past_every_known_id_of_the_day() {
    let store = store();
    let last = Some(id("T-20260708-005"));
    let active = vec![id("T-20260708-007"), id("T-20260707-050")];
    let archived = vec![id("T-20260708-003")];
    let next = store
        .next_ticket_id("20260708", &last, &active, &archived)
        .expect("next id");
    assert_eq!(next.as_str(), "T-20260708-008");
    let first = store
        .next_ticket_id("20260709", &last, &active, &archived)
        .expect("first of a new day");
    assert_eq!(first.as_str(), "T-20260709-001");
}

#[test]
fn next_id_beyond_three_digits_is_refused_as_an_invalid_id() {
    let store = store();
    let last = Some(id("T-20260708-999"));
    let error = store
        .next_ticket_id("20260708", &last, &Vec::new(), &Vec::new())
        .err()
        .expect("no fourth digit");
    assert_eq!(error.message(), "invalid ticket id T-20260708-1000");
}

#[test]
fn created_ticket_is_open_and_indexed() {
    let created = store()
        .create_ticket(
            CreateTicket::new("fresh".to_owned()),
            TicketIndex::new_default(),
            &Vec::new(),
            &Vec::new(),
        )
        .expect("create");
    assert_eq!(created.ticket.status, TicketStatus::Open);
    assert_eq!(created.ticket.priority, "medium");
    assert_eq!(created.ticket.ticket_type, "chore");
    assert_eq!(created.ticket.assignee, "iyen");
    assert_eq!(created.ticket.created, created.ticket.updated);
    assert_eq!(created.index.last_id, Some(created.ticket.id.clone()));
    assert!(created.index.contains_key(&created.ticket.id));
    assert_eq!(created.event.event_type, "ticket.created");
    assert_eq!(created.event.actor, "ticket-flow");
    assert!(is_hyphenated_uuid(&created.event.id));
    let today = today_yyyymmdd();
    assert_eq!(created.ticket.id.as_str()[2..10], today[..]);
}

#[test]
fn uuid_and_clock_wrappers_give_fresh_well_formed_values() {
    let a = EventEnvelope::new(id("T-20260708-001"), "ticket.linked", EventPayload::Linked(LinkKind::Prs));
    let b = EventEnvelope::new(id("T-20260708-001"), "ticket.linked", EventPayload::Linked(LinkKind::Prs));
    assert!(is_hyphenated_uuid(&a.id));
    assert_eq!(&a.id[14..15], "7");
    assert!(["8", "9", "a", "b"].contains(&&a.id[19..20]));
    assert_ne!(a.id, b.id);
    let now = now_rfc3339();
    assert!(now.len() >= 20);
    assert_eq!(&now[4..5], "-");
    let today = today_yyyymmdd();
    assert_eq!(today.len(), 8);
    assert!(today.chars().all(|c| c.is_ascii_digit()));
    assert_eq!(&now[..4], &today[..4]);
    assert!(now.ends_with('Z'));
    assert_eq!(&now[7..8], "-");
    assert_eq!(&now[10..11], "T");
    assert!(TicketId::from_parts(&today, 1).is_ok());
    assert!(TicketId::from_parts(&today, 999).is_ok());
    assert!(TicketId::from_parts(&today, 1000).is_err());
}

#[test]
fn defaults_are_empty() {
    assert!(CheckpointPatch::default().is_empty());
    let index = TicketIndex::default();
    assert_eq!(index.version, 1);
    assert!(index.last_id.is_none());
    assert!(index.tickets.is_empty());
    let links = ticket_flow_core::model::LinkMap::default();
    assert!(links.prs.is_empty() && links.github_issues.is_empty());
    assert!(!ticket_flow_core::NextAction::default().has_fields());
    assert!(ticket_flow_core::model::CurrentState::default().next_action.is_none());
}

#[test]
fn linking_twice_keeps_one_reference() {
    let store = store();
    let ticket = create("links");
    let once = store
        .link_ticket(
            ticket,
            LinkTicketInput {
                kind: LinkKind::Prs,
                value: "https://example.test/pr/1".to_owned(),
            },
        )
        .ticket;
    let twice = store
        .link_ticket(
            once,
            LinkTicketInput {
                kind: LinkKind::Prs,
                value: "https://example.test/pr/1".to_owned(),
            },
        )
        .ticket;
    assert_eq!(twice.links.prs, vec!["https://example.test/pr/1".to_owned()]);
    assert!(twice.links.threads.is_empty());
    assert_eq!(LinkKind::from_str("cron_jobs").expect("kind"), LinkKind::CronJobs);
    assert_eq!(
        LinkKind::from_str("wiki").err().expect("bad kind").message(),
        "invalid link kind wiki"
    );
}

#[test]
fn add_log_appends_a_note_entry() {
    let store = store();
    let ticket = create("notes");
    let change = store.add_log(ticket, AddLogInput { note: "looked at it".to_owned() });
    assert_eq!(change.ticket.log.len(), 1);
    assert_eq!(change.ticket.log[0].note, Some("looked at it".to_owned()));
    assert_eq!(change.event.event_type, "ticket.log_added");
}

#[test]
fn event_endpoint_is_idempotent_and_ends_with_event() {
    assert_eq!(event_endpoint("http://127.0.0.1:25294"), "http://127.0.0.1:25294/event");
    assert_eq!(event_endpoint("http://host//"), "http://host/event");
    assert_eq!(event_endpoint("http://host/event/"), "http://host/event");
    let once = event_endpoint("http://host/x/");
    assert_eq!(event_endpoint(&once), once);
    assert_eq!(delivery_endpoint(&None), "http://127.0.0.1:25294/event");
}

#[test]
fn repo_name_is_the_last_path_component() {
    assert_eq!(repo_name("/repo/ticket-flow"), Some("ticket-flow".to_owned()));
    assert_eq!(repo_name("/repo/ticket-flow/"), Some("ticket-flow".to_owned()));
    assert_eq!(repo_name("/repo/ticket-flow/."), Some("ticket-flow".to_owned()));
    assert_eq!(repo_name("plain"), Some("plain".to_owned()));
    assert_eq!(repo_name("/"), None);
    assert_eq!(repo_name(""), None);
    assert_eq!(repo_name("."), None);
    assert_eq!(repo_name("/repo/.."), None);
}

#[test]
fn clawhip_settings_follow_the_environment_contract() {
    for on in ["1", "true", "yes", "on"] {
        assert!(clawhip_enabled(&Some(on.to_owned())));
    }
    assert!(!clawhip_enabled(&Some("0".to_owned())));
    assert!(!clawhip_enabled(&None));
    assert_eq!(clawhip_timeout_ms(&Some("50".to_owned())), 50);
    assert_eq!(clawhip_timeout_ms(&Some("0".to_owned())), 1000);
    assert_eq!(clawhip_timeout_ms(&Some("soon".to_owned())), 1000);
    assert_eq!(clawhip_timeout_ms(&None), 1000);
    assert_eq!(clawhip_mode(&Some("strict".to_owned())), ClawhipSendMode::Strict);
    assert_eq!(clawhip_mode(&Some("loud".to_owned())), ClawhipSendMode::BestEffort);
    assert_eq!(resolve_text(Some("  x ".to_owned())), Some("x".to_owned()));
    assert_eq!(resolve_text(Some("   ".to_owned())), None);
}

#[test]
fn question_summary_prefers_blocker_then_next_then_title() {
    let store = store();
    let ticket = create("question");
    assert_eq!(
        question_summary(ClawhipEventKind::Blocked, &ticket),
        Some("question".to_owned())
    );
    assert_eq!(question_summary(ClawhipEventKind::Created, &ticket), None);
    let mut patch = CheckpointPatch::empty();
    patch.next = Some("ask owner".to_owned());
    let ticket = store
        .checkpoint_ticket(ticket, patch, TicketIndex::new_default())
        .expect("checkpoint")
        .ticket;
    assert_eq!(
        question_summary(ClawhipEventKind::ReviewReady, &ticket),
        Some("ask owner".to_owned())
    );
    let mut patch = CheckpointPatch::empty();
    patch.blocker = Some("no access".to_owned());
    let ticket = store
        .checkpoint_ticket(ticket, patch, TicketIndex::new_default())
        .expect("checkpoint")
        .ticket;
    assert_eq!(
        question_summary(ClawhipEventKind::Blocked, &ticket),
        Some("no access".to_owned())
    );
}

#[test]
fn board_columns_partition_the_unfinished_tickets() {
    let store = store();
    let open = create("open one");
    let doing = store
        .update_status(
            create("doing one"),
            StatusPatch { status: TicketStatus::Doing, artifact: None, evidence: None, note: None },
            TicketIndex::new_default(),
        )
        .expect("doing")
        .ticket;
    let reviewed = store
        .update_status(
            doing,
            StatusPatch {
                status: TicketStatus::Review,
                artifact: Some("diff".to_owned()),
                evidence: None,
                note: None,
            },
            TicketIndex::new_default(),
        )
        .expect("review")
        .ticket;
    let tickets = vec![open, reviewed];
    let view = board(&tickets);
    assert_eq!(view.open.len(), 1);
    assert_eq!(view.open[0].title, "open one");
    assert_eq!(view.doing.len(), 0);
    assert_eq!(view.review.len(), 1);
    assert_eq!(view.blocked.len(), 0);
    assert_eq!(review(&tickets).tickets[0].title, "doing one");
    assert!(coordination(&tickets).tickets.is_empty());
}

#[test]
fn handoffs_and_approvals_are_recorded_and_answered() {
    let ticket = create("coordinate");
    let requested = request_handoff(
        ticket,
        HandoffRequest { from: "codex".to_owned(), to: "iyen".to_owned(), reason: "review".to_owned() },
    )
    .ticket;
    let handoff_id = requested.coordination.as_ref().expect("coordination").handoffs[0].id.clone();
    let missing = ack_handoff(requested, HandoffAck { handoff_id: "H-none".to_owned() })
        .err()
        .expect("unknown handoff");
    assert_eq!(missing.message(), "handoff H-none not found");
    let ticket = create("coordinate");
    let requested = request_handoff(
        ticket,
        HandoffRequest { from: "codex".to_owned(), to: "iyen".to_owned(), reason: "review".to_owned() },
    )
    .ticket;
    let handoff_id2 = requested.coordination.as_ref().expect("coordination").handoffs[0].id.clone();
    assert_ne!(handoff_id, handoff_id2);
    let acked = ack_handoff(requested, HandoffAck { handoff_id: handoff_id2 }).expect("ack").ticket;
    assert_eq!(acked.coordination.as_ref().expect("c").handoffs[0].status, "acknowledged");
    let handoff = &acked.coordination.as_ref().expect("c").handoffs[0];
    assert!(handoff.requested_at.ends_with('Z'));
    assert!(handoff.acknowledged_at.as_ref().expect("acknowledged").ends_with('Z'));
    let asked = request_approval(
        acked,
        ApprovalRequest { owner: "iyen".to_owned(), question: "ship?".to_owned() },
    )
    .ticket;
    let approval = asked.coordination.as_ref().expect("c").approvals[0].id.clone();
    assert!(approval.starts_with("A-"));
    assert_eq!(approval.len(), 38);
    let answered = respond_approval(asked, &approval, ApprovalDecision::Approved)
        .expect("respond")
        .ticket;
    let record = &answered.coordination.as_ref().expect("c").approvals[0];
    assert_eq!(record.status, "responded");
    assert_eq!(record.outcome, Some("approved".to_owned()));
    assert!(record.requested_at.ends_with('Z'));
    assert_eq!(&record.requested_at[10..11], "T");
    assert!(record.responded_at.as_ref().expect("responded").ends_with('Z'));
    let view = coordination(&vec![answered]);
    assert_eq!(view.tickets[0].handoffs, 1);
    assert_eq!(view.tickets[0].approvals, 1);
    let unknown = respond_approval(create("x"), "A-none", ApprovalDecision::Rejected)
        .err()
        .expect("unknown approval");
    assert_eq!(unknown.message(), "approval A-none not found");
}

#[test]
fn gates_name_what_is_missing() {
    let ticket = create("gates");
    let review = review_gate(&ticket);
    assert!(review.passed);
    assert_eq!(review.gate, "review");
    let done = done_gate(&ticket);
    assert!(!done.passed);
    assert_eq!(done.missing, vec!["acceptance".to_owned(), "evidence".to_owned()]);
    let next = next_action_gate(&ticket, NextActionType::AgentAction);
    assert!(!next.passed);
    assert_eq!(next.missing, vec!["current.next_action.type".to_owned()]);
}

#[test]
fn archive_months_are_year_and_month() {
    assert!(is_archive_month("2026-07"));
    assert!(!is_archive_month("2026-7"));
    assert!(!is_archive_month("2026/07"));
    assert_eq!(archive_month_from_timestamp("2026-07-08T00:00:00Z"), Some("2026-07".to_owned()));
    assert_eq!(archive_month_from_timestamp("2026"), None);
    let ticket = create("archive");
    let month = archive_month_for_ticket(&ticket);
    assert_eq!(month, ticket.updated[..7].to_owned());
}

#[test]
fn listing_order_is_by_identifier_text() {
    let names = vec![
        "T-20260708-010.json".to_owned(),
        "notes.txt".to_owned(),
        "T-20260707-001.json".to_owned(),
        "T-20260708-002.json".to_owned(),
        "T-20260708-002.json".to_owned(),
        "T-bad.json".to_owned(),
    ];
    let ids: Vec<String> = ids_in_listing_order(&names)
        .iter()
        .map(|i| i.as_str().to_owned())
        .collect();
    assert_eq!(ids, vec!["T-20260707-001", "T-20260708-002", "T-20260708-010"]);
    assert!(text_lt("a", "b"));
    assert!(text_lt("ab", "abc"));
    assert!(!text_lt("abc", "abc"));
}

#[test]
fn input_parsers_report_their_errors() {
    assert_eq!(parse_approval_decision("approved").expect("ok"), ApprovalDecision::Approved);
    assert_eq!(
        parse_approval_decision("maybe").err().expect("bad").message(),
        "approval decision must be approved or rejected, got maybe"
    );
    assert_eq!(
        parse_audience("board").err().expect("bad").message(),
        "unknown context audience board"
    );
    assert_eq!(parse_optional_next_action(None).expect("none"), None);
    assert_eq!(
        parse_optional_next_action(Some("owner_gate".to_owned())).expect("type"),
        Some(NextActionType::OwnerGate)
    );
    assert!(parse_optional_next_action(Some("later".to_owned())).is_err());
    for bad in ["nocolon", " :x", "kind:  "] {
        assert_eq!(
            parse_source(Some(bad.to_owned())).err().expect("invalid").message(),
            format!("invalid source {bad}")
        );
    }
    assert!(parse_source(None).expect("none").is_none());
    assert_eq!(
        McpTool::from_name("ticket_delete").err().expect("unknown").message(),
        "unknown tool ticket_delete"
    );
    assert_eq!(
        ClawhipEventKind::from_str("ticket.closed").err().expect("bad").message(),
        "invalid clawhip event kind ticket.closed"
    );
}

#[test]
fn text_helpers_compute_exact_values() {
    assert_eq!(decimal_string(0), "0");
    assert_eq!(decimal_string(1204), "1204");
    assert_eq!(pad_zeros("7".to_owned(), 3), "007");
    assert_eq!(pad_zeros("1234".to_owned(), 3), "1234");
    assert_eq!(parse_unsigned("+42", 100), Some(42));
    assert_eq!(parse_unsigned("420", 100), None);
    assert_eq!(parse_unsigned("", 100), None);
    assert_eq!(trim("\t hi \n"), "hi");
}

#[test]
fn every_error_reads_as_its_message() {
    let cases: Vec<(TicketFlowError, &str)> = vec![
        (TicketFlowError::ApprovalOutcomeNotAllowed, "approval outcome not allowed"),
        (TicketFlowError::BlockedGateFailed, "blocked gate failed: needed_from or next_owner required"),
        (TicketFlowError::DuplicateDestinationTicket("T-1".to_owned()), "duplicate destination ticket T-1"),
        (TicketFlowError::DuplicateSourceTicket("T-1".to_owned()), "duplicate source ticket T-1"),
        (TicketFlowError::EmptyCheckpoint, "checkpoint requires at least one field"),
        (TicketFlowError::EmptyEvidence, "evidence value must not be empty"),
        (TicketFlowError::HomeDirectoryUnavailable, "home directory is not available"),
        (TicketFlowError::IdSequenceExhausted("20260708".to_owned()), "id sequence exhausted for date 20260708"),
        (TicketFlowError::InvalidImportSource("/x".to_owned()), "invalid import source /x"),
        (TicketFlowError::InvalidSource("x".to_owned()), "invalid source x"),
        (TicketFlowError::InvalidStatus("x".to_owned()), "invalid status x"),
        (TicketFlowError::InvalidLinkKind("x".to_owned()), "invalid link kind x"),
        (TicketFlowError::InvalidClawhipEventKind("x".to_owned()), "invalid clawhip event kind x"),
        (TicketFlowError::InvalidTicketId("x".to_owned()), "invalid ticket id x"),
        (TicketFlowError::InvalidTransition { from: TicketStatus::Review, to: TicketStatus::Blocked },
            "invalid transition review -> blocked",
        ),
        (TicketFlowError::ApprovalNotFound("A-1".to_owned()), "approval A-1 not found"),
        (TicketFlowError::HandoffNotFound("H-1".to_owned()), "handoff H-1 not found"),
        (TicketFlowError::ReviewArtifactRequired, "review requires --artifact"),
        (TicketFlowError::TicketNotFound("T-1".to_owned()), "ticket T-1 not found"),
        (TicketFlowError::ClawhipHttpStatus(503), "clawhip returned HTTP 503"),
        (TicketFlowError::InvalidApprovalDecision("x".to_owned()), "approval decision must be approved or rejected, got x"),
        (TicketFlowError::UnknownContextAudience("x".to_owned()), "unknown context audience x"),
        (TicketFlowError::EmptyTitle, "title must not be empty"),
        (TicketFlowError::UnknownTool("x".to_owned()), "unknown tool x"),
        (TicketFlowError::Io("disk full".to_owned()), "disk full"),
        (TicketFlowError::Json("bad json".to_owned()), "bad json"),
        (TicketFlowError::Http("refused".to_owned()), "refused"),
    ];
    for (error, message) in cases {
        assert_eq!(error.message(), message);
    }
}

#[test]
fn store_layout_and_home_fallback() {
    let paths = StorePaths::new("/data/tickets".to_owned());
    assert_eq!(paths.active, "/data/tickets/active");
    assert_eq!(paths.archive, "/data/tickets/archive");
    assert_eq!(paths.events, "/data/tickets/events");
    assert_eq!(paths.index, "/data/tickets/index.json");
    let from_home = StorePaths::from_env_or_home(None, Some("/home/me".to_owned())).expect("home");
    assert_eq!(from_home.root, "/home/me/.ticket-flow/tickets");
    let explicit = StorePaths::from_env_or_home(Some("/x".to_owned()), None).expect("explicit");
    assert_eq!(explicit.root, "/x");
    assert_eq!(
        StorePaths::from_env_or_home(None, None).err().expect("no home"),
        TicketFlowError::HomeDirectoryUnavailable
    );
    let store = TicketStore::new(paths);
    let tid = id("T-20260708-001");
    assert_eq!(store.event_log_path(&tid), "/data/tickets/events/T-20260708-001.ndjson");
    assert_eq!(
        store.archived_month_path("2026-07", &tid),
        "/data/tickets/archive/2026-07/T-20260708-001.json"
    );
}
