use ticket_flow_core::model::{is_ticket_id, TicketSource};
use ticket_flow_core::ticket::TicketSummary;
use ticket_flow_core::{Artifact, NextActionType, TicketId, TicketIndex, TicketStatus};

#[test]
fn legacy_string_artifact_normalizes_to_object() {
    let artifact = Artifact::from_text("legacy artifact".to_owned());
    assert_eq!(artifact.artifact_type, "artifact");
    assert_eq!(artifact.value, "legacy artifact");
    assert_eq!(artifact.ts, "");
}

#[test]
fn index_keeps_last_id_and_typed_summaries() {
    let id = TicketId::parse("T-20260708-002").expect("id parses");
    let mut index = TicketIndex::new_default();
    index.last_id = Some(id.clone());
    index.record(
        id.clone(),
        TicketSummary {
            title: "indexed".to_owned(),
            status: TicketStatus::Doing,
            priority: "high".to_owned(),
            ticket_type: "agent_action".to_owned(),
            updated: "2026-07-08T00:00:00Z".to_owned(),
            extra: Vec::new(),
        },
    );
    assert_eq!(index.last_id, Some(id.clone()));
    assert_eq!(index.get(&id).expect("summary").status, TicketStatus::Doing);
    assert_eq!(index.version, 1);
}

#[test]
fn rejects_invalid_ticket_id_and_status() {
    assert!(TicketId::parse("bad").is_err());
    assert!(TicketStatus::from_str("bogus").is_err());
    assert_eq!(
        TicketId::parse("bad").err().expect("bad id").message(),
        "invalid ticket id bad"
    );
    assert_eq!(
        TicketStatus::from_str("bogus").err().expect("bad status").message(),
        "invalid status bogus"
    );
}

#[test]
fn ticket_id_shape_is_checked_character_by_character() {
    assert!(is_ticket_id("T-20260708-004"));
    assert!(!is_ticket_id("T-20260708-04"));
    assert!(!is_ticket_id("X-20260708-004"));
    assert!(!is_ticket_id("T-2026070a-004"));
    assert!(!is_ticket_id("T-20260708_004"));
    assert!(!is_ticket_id(""));
    let id = TicketId::from_parts("20260708", 7).expect("from parts");
    assert_eq!(id.as_str(), "T-20260708-007");
    assert!(TicketId::from_parts("2026070", 7).is_err());
    assert!(TicketId::from_parts("20260708", 1000).is_err());
}

#[test]
fn from_parts_accepts_eight_digit_days_and_sequences_up_to_999() {
    assert_eq!(TicketId::from_parts("20260708", 999).expect("ok").as_str(), "T-20260708-999");
    assert_eq!(TicketId::from_parts("20260708", 0).expect("ok").as_str(), "T-20260708-000");
    assert!(TicketId::from_parts("2026070a", 1).is_err());
    assert!(TicketId::from_parts("202607081", 1).is_err());
    assert!(TicketId::from_parts("", 1).is_err());
    match TicketId::from_parts("20260708", 1000) {
        Err(e) => assert_eq!(e.message(), "invalid ticket id T-20260708-1000"),
        Ok(_) => panic!("expected an invalid id"),
    }
}

#[test]
fn index_record_replaces_and_forget_removes() {
    let a = TicketId::parse("T-20260708-001").expect("id");
    let b = TicketId::parse("T-20260708-002").expect("id");
    let summary = |title: &str| TicketSummary {
        title: title.to_owned(),
        status: TicketStatus::Open,
        priority: "medium".to_owned(),
        ticket_type: "chore".to_owned(),
        updated: String::new(),
        extra: Vec::new(),
    };
    let mut index = TicketIndex::new_default();
    index.record(a.clone(), summary("first"));
    index.record(b.clone(), summary("second"));
    index.record(a.clone(), summary("again"));
    assert_eq!(index.get(&a).expect("a").title, "again");
    assert_eq!(index.tickets.len(), 2);
    index.forget(&a);
    assert!(!index.contains_key(&a));
    assert!(index.contains_key(&b));
}

#[test]
fn wire_names_read_back() {
    for s in [
        TicketStatus::Open,
        TicketStatus::Doing,
        TicketStatus::Review,
        TicketStatus::Blocked,
        TicketStatus::Done,
    ] {
        assert_eq!(TicketStatus::from_str(s.as_str()).expect("status"), s);
    }
    for t in [
        NextActionType::AgentAction,
        NextActionType::OwnerGate,
        NextActionType::ReleaseGate,
        NextActionType::Blocked,
    ] {
        assert_eq!(NextActionType::from_str(t.as_str()).expect("type"), t);
    }
    assert_eq!(TicketStatus::default_status(), TicketStatus::Open);
}

#[test]
fn source_reference_keeps_both_sides() {
    let parsed = ticket_flow_core::input::parse_source(Some("github:org/repo#12".to_owned()))
        .expect("valid source")
        .expect("some");
    match parsed {
        TicketSource::Reference { kind, reference } => {
            assert_eq!(kind, "github");
            assert_eq!(reference, "org/repo#12");
        }
        TicketSource::Other(_) => panic!("expected a reference"),
    }
}
