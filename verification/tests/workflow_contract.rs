use ticket_flow_core::{
    attach_evidence, build_context_pack, ready_gate, CheckpointPatch, ContextAudience,
    CreateTicket, EvidenceInput, NextActionType, StorePaths, Ticket, TicketIndex, TicketStore,
};

fn store() -> TicketStore {
    TicketStore::new(StorePaths::new("/tmp/ticket-flow-workflow".to_owned()))
}

fn create(store: &TicketStore, input: CreateTicket) -> Ticket {
    store
        .create_ticket(input, TicketIndex::new_default(), &Vec::new(), &Vec::new())
        .expect("create ticket")
        .ticket
}

#[test]
fn checkpoint_requires_at_least_one_field() {
    let store = store();
    let ticket = create(&store, CreateTicket::new("empty checkpoint".to_owned()));
    let result = store.checkpoint_ticket(ticket, CheckpointPatch::empty(), TicketIndex::new_default());
    assert!(result.is_err());
}

#[test]
fn ready_gate_reports_missing_goal_acceptance_next_action() {
    let store = store();
    let ticket = create(&store, CreateTicket::new("missing ready data".to_owned()));
    let result = ready_gate(&ticket);
    assert!(!result.passed);
    assert!(result.missing.contains(&"goal".to_owned()));
    assert!(result.missing.contains(&"acceptance".to_owned()));
    assert!(result.missing.contains(&"current.next_action".to_owned()));
}

#[test]
fn agent_context_pack_contains_goal_constraints_next_action_evidence() {
    let store = store();
    let mut input = CreateTicket::new("agent context".to_owned());
    input.goal = "ship ticket-flow parity".to_owned();
    input.acceptance = vec!["agent queue has command".to_owned()];
    let ticket = create(&store, input);
    let mut patch = CheckpointPatch::empty();
    patch.phase = Some("implement".to_owned());
    patch.next_action_type = Some(NextActionType::AgentAction);
    patch.next_command = Some("cargo test".to_owned());
    patch.next_owner = Some("codex".to_owned());
    let checkpointed = store
        .checkpoint_ticket(ticket, patch, TicketIndex::new_default())
        .expect("checkpoint")
        .ticket;
    let with_evidence = attach_evidence(
        checkpointed,
        EvidenceInput {
            artifact_type: "test_output".to_owned(),
            value: "cargo test pass".to_owned(),
        },
    )
    .expect("attach evidence")
    .ticket;
    let pack = build_context_pack(&with_evidence, ContextAudience::AgentExecution);
    assert_eq!(pack.goal, "ship ticket-flow parity");
    assert_eq!(
        pack.next_action.expect("next action").command,
        Some("cargo test".to_owned())
    );
    assert_eq!(pack.evidence_refs, vec!["cargo test pass".to_owned()]);
}

#[test]
fn checkpoint_with_agent_action_announces_it_and_blocker_blocks() {
    let store = store();
    let ticket = create(&store, CreateTicket::new("announce".to_owned()));
    let mut patch = CheckpointPatch::empty();
    patch.next_action_type = Some(NextActionType::AgentAction);
    patch.next_command = Some("cargo test".to_owned());
    let outcome = store
        .checkpoint_ticket(ticket, patch, TicketIndex::new_default())
        .expect("checkpoint");
    assert_eq!(outcome.event.event_type, "ticket.checkpointed");
    let agent = outcome.agent_action_event.expect("agent action event");
    assert_eq!(agent.event_type, "ticket.agent_action_available");
    assert_eq!(outcome.notices.len(), 2);
    let mut blocker = CheckpointPatch::empty();
    blocker.blocker = Some("waiting on review".to_owned());
    let blocked = store
        .checkpoint_ticket(outcome.ticket, blocker, outcome.index)
        .expect("blocker");
    assert_eq!(blocked.ticket.status, ticket_flow_core::TicketStatus::Blocked);
    assert!(blocked.agent_action_event.is_some());
    assert_eq!(blocked.notices.len(), 3);
    let current = blocked.ticket.current.expect("current");
    assert_eq!(current.blocker, Some("waiting on review".to_owned()));
    assert_eq!(
        current.next_action.expect("kept next action").command,
        Some("cargo test".to_owned())
    );
}

#[test]
fn blank_evidence_is_refused() {
    let store = store();
    let ticket = create(&store, CreateTicket::new("evidence".to_owned()));
    let error = attach_evidence(
        ticket,
        EvidenceInput {
            artifact_type: "note".to_owned(),
            value: "   ".to_owned(),
        },
    )
    .err()
    .expect("blank evidence");
    assert_eq!(error.message(), "evidence value must not be empty");
}
