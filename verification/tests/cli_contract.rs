use ticket_flow_core::args::{
    CheckpointArgs, ClawhipEventArgs, ContextPackArgs, CreateArgs, EvidenceAttachArgs,
};
use ticket_flow_core::clawhip::{
    build_clawhip_event, plan_env_delivery, send_outcome, BuildClawhipEventInput, ClawhipEnv,
    ClawhipEventKind, ClawhipSendMode, EnvClawhipEmit,
};
use ticket_flow_core::gates::ready_check_passed;
use ticket_flow_core::import::SourceTicket;
use ticket_flow_core::mcp::{
    check_title, route_request, tool_definitions, McpReply, McpTool, PropertyKind, INVALID_PARAMS,
};
use ticket_flow_core::model::LinkMap;
use ticket_flow_core::{
    agent_queue, attach_evidence, blocked_gate, build_context_pack, ready_gate, CreateTicket,
    StatusPatch, StorePaths, Ticket, TicketFlowError, TicketId, TicketIndex, TicketStatus,
    TicketStore,
};

fn store() -> TicketStore {
    TicketStore::new(StorePaths::new("/tmp/ticket-flow-cli".to_owned()))
}

fn create_args(title: &str) -> CreateArgs {
    CreateArgs {
        title: title.to_owned(),
        ticket_type: "chore".to_owned(),
        priority: "medium".to_owned(),
        goal: String::new(),
        parent: None,
        assignee: "iyen".to_owned(),
        acceptance: Vec::new(),
        tags: Vec::new(),
        source: None,
    }
}

fn create(store: &TicketStore, args: CreateArgs) -> Ticket {
    let input = args.into_input().expect("valid create arguments");
    store
        .create_ticket(input, TicketIndex::new_default(), &Vec::new(), &Vec::new())
        .expect("create")
        .ticket
}

fn empty_checkpoint(id: &str) -> CheckpointArgs {
    CheckpointArgs {
        id: id.to_owned(),
        phase: None,
        decision: None,
        evidence: None,
        blocker: None,
        next: None,
        note: None,
        next_type: None,
        next_command: None,
        next_owner: None,
    }
}

fn open_source(id: &str, title: &str) -> SourceTicket {
    SourceTicket {
        ticket: Ticket {
            id: TicketId::parse(id).expect("id"),
            title: title.to_owned(),
            status: TicketStatus::Open,
            priority: "medium".to_owned(),
            ticket_type: "chore".to_owned(),
            source: None,
            goal: String::new(),
            acceptance: Vec::new(),
            tags: Vec::new(),
            artifacts: Vec::new(),
            links: LinkMap::empty(),
            parent: None,
            children: Vec::new(),
            assignee: "iyen".to_owned(),
            created: "2026-07-08T00:00:00Z".to_owned(),
            updated: "2026-07-08T00:00:00Z".to_owned(),
            closed: None,
            log: Vec::new(),
            current: None,
            shared: None,
            coordination: None,
            evidence: None,
            execution: None,
            memory: None,
            local: None,
            extra: Vec::new(),
        },
        source_archive_month: None,
    }
}

#[test]
fn cli_create_prints_ticket_id_and_writes_store() {
    let store = store();
    let mut args = create_args("CLI create");
    args.goal = "prove create".to_owned();
    args.acceptance = vec!["id is printed".to_owned()];
    let ticket = create(&store, args);
    let id = ticket.id.as_str().to_owned();
    assert!(id.contains("T-"));
    assert_eq!(
        store.active_ticket_path(&ticket.id),
        format!("/tmp/ticket-flow-cli/active/{id}.json")
    );
    assert_eq!(ticket.goal, "prove create");
}

#[test]
fn cli_ready_check_json_exits_one_when_missing_fields() {
    let store = store();
    let ticket = create(&store, create_args("Missing ready data"));
    let ready = ready_gate(&ticket);
    let blocked = blocked_gate(&ticket);
    assert!(!ready_check_passed(&ready, &blocked));
    assert!(ready.missing.contains(&"goal".to_owned()));
    assert!(ready.missing.contains(&"acceptance".to_owned()));
    assert!(ready.missing.contains(&"current.next_action".to_owned()));
}

#[test]
fn cli_empty_checkpoint_exits_one() {
    let store = store();
    let ticket = create(&store, create_args("Empty checkpoint"));
    let (id, patch) = empty_checkpoint(ticket.id.as_str())
        .into_request()
        .expect("arguments");
    assert_eq!(id, ticket.id);
    let error = store
        .checkpoint_ticket(ticket, patch, TicketIndex::new_default())
        .err()
        .expect("empty checkpoint");
    assert!(error.message().contains("checkpoint requires at least one field"));
}

#[test]
fn cli_context_pack_json_contains_audience() {
    let store = store();
    let mut args = create_args("Rust v2 happy");
    args.ticket_type = "agent_action".to_owned();
    args.priority = "high".to_owned();
    args.goal = "prove rust implementation".to_owned();
    args.acceptance = vec!["agent queue has command".to_owned()];
    let ticket = create(&store, args);
    let mut checkpoint = empty_checkpoint(ticket.id.as_str());
    checkpoint.phase = Some("implement".to_owned());
    checkpoint.decision = Some("use Rust store".to_owned());
    checkpoint.evidence = Some("cargo test planned".to_owned());
    checkpoint.next = Some("run agent command".to_owned());
    checkpoint.next_type = Some("agent_action".to_owned());
    checkpoint.next_command = Some("cargo test".to_owned());
    checkpoint.next_owner = Some("codex".to_owned());
    let (_, patch) = checkpoint.into_request().expect("checkpoint arguments");
    let ticket = store
        .checkpoint_ticket(ticket, patch, TicketIndex::new_default())
        .expect("checkpoint")
        .ticket;
    let (_, evidence) = EvidenceAttachArgs {
        id: ticket.id.as_str().to_owned(),
        artifact_type: "test_output".to_owned(),
        value: "cargo test pass".to_owned(),
    }
    .into_request()
    .expect("evidence arguments");
    let ticket = attach_evidence(ticket, evidence).expect("evidence").ticket;
    let stamp = &ticket.artifacts.last().expect("artifact").ts;
    assert!(stamp.ends_with('Z'));
    assert_eq!(&stamp[4..5], "-");
    let (_, audience) = ContextPackArgs {
        id: ticket.id.as_str().to_owned(),
        audience: "agent_execution".to_owned(),
    }
    .into_request()
    .expect("context pack arguments");
    let pack = build_context_pack(&ticket, audience);
    assert_eq!(pack.audience.as_str(), "agent_execution");
    assert_eq!(
        pack.next_action.expect("next action").command,
        Some("cargo test".to_owned())
    );
}

#[test]
fn cli_import_prints_summary() {
    let plan = store()
        .plan_import(
            "/source",
            vec![open_source("T-20260708-004", "CLI import active")],
            TicketIndex::new_default(),
            &Vec::new(),
        )
        .expect("import");
    assert_eq!(plan.summary.line(), "imported 1 ticket(s): active=1 archived=0");
}

#[test]
fn cli_import_rejects_missing_source_root() {
    let source = "/tmp/parent/missing-import-source";
    let error = TicketFlowError::InvalidImportSource(source.to_owned());
    assert!(error
        .message()
        .contains(&format!("invalid import source {}", source)));
}

#[test]
fn clawhip_strict_send_rejects_http_500() {
    let error = send_outcome(ClawhipSendMode::Strict, Ok(500))
        .err()
        .expect("strict send fails on HTTP 500");
    assert_eq!(error, TicketFlowError::ClawhipHttpStatus(500));
    assert!(error.message().contains("clawhip returned HTTP 500"));
}

#[test]
fn cli_clawhip_prints_sends_and_auto_emit_is_best_effort() {
    let store = store();
    let ticket = create(&store, create_args("Clawhip routeable"));
    // Automatic emission towards an unavailable daemon is planned best effort.
    let delivery = plan_env_delivery(
        ClawhipEnv {
            enabled: Some("1".to_owned()),
            url: Some("http://127.0.0.1:9".to_owned()),
            mode: None,
            timeout_ms: Some("50".to_owned()),
            repo_path: None,
            worktree_path: None,
        },
        EnvClawhipEmit {
            kind: ClawhipEventKind::Created,
            ticket: &ticket,
            from_status: None,
            to_status: None,
        },
    )
    .expect("enabled");
    assert_eq!(delivery.timeout_ms, 50);
    assert_eq!(delivery.mode, ClawhipSendMode::BestEffort);
    let refused = send_outcome(delivery.mode, Err("connection refused".to_owned()))
        .expect("best effort never fails");
    assert!(!refused.ok);
    assert_eq!(refused.error, Some("connection refused".to_owned()));
    let answered = send_outcome(delivery.mode, Ok(500)).expect("best effort never fails");
    assert!(answered.ok);
    assert_eq!(answered.status, Some(500));
    assert_eq!(answered.error, None);
    // The printed and sent event is the routeable projection.
    let args = ClawhipEventArgs {
        id: ticket.id.as_str().to_owned(),
        kind: "ticket.created".to_owned(),
        print: true,
        send: false,
        url: "http://127.0.0.1:25294".to_owned(),
        timeout_ms: 1000,
    };
    assert!(args.prints());
    let kind = args.event_kind().expect("kind");
    let event = build_clawhip_event(BuildClawhipEventInput {
        kind,
        ticket: &ticket,
        repo_path: Some("/repo/ticket-flow".to_owned()),
        worktree_path: None,
        from_status: None,
        to_status: None,
        correlation_id: None,
    });
    assert_eq!(event.event_type.as_str(), "ticket.created");
    assert_eq!(event.payload.provider, "ticket-flow");
    assert_eq!(event.payload.ticket_id, ticket.id.as_str());
    assert_eq!(event.payload.repo_path, Some("/repo/ticket-flow".to_owned()));
    let sent = send_outcome(ClawhipSendMode::Strict, Ok(202)).expect("accepted");
    assert!(sent.ok);
    assert_eq!(sent.status, Some(202));
}

#[test]
fn mcp_stdio_lists_calls_tools_and_reports_bad_input() {
    assert!(matches!(
        route_request(Some("initialize".to_owned()), true),
        Some(McpReply::Initialize)
    ));
    assert!(route_request(Some("notifications/initialized".to_owned()), false).is_none());
    assert!(matches!(
        route_request(Some("tools/list".to_owned()), true),
        Some(McpReply::ToolsList)
    ));
    let names: Vec<&str> = tool_definitions().into_iter().map(McpTool::name).collect();
    assert!(names.contains(&"ticket_create"));
    assert!(names.contains(&"ticket_import"));
    assert!(names.contains(&"ticket_agent_actions"));
    // ticket_create
    let store = store();
    assert_eq!(McpTool::from_name("ticket_create").expect("tool"), McpTool::TicketCreate);
    assert!(check_title("MCP created").is_ok());
    let mut input = CreateTicket::new("MCP created".to_owned());
    input.ticket_type = "feature".to_owned();
    input.priority = "high".to_owned();
    let created = store
        .create_ticket(input, TicketIndex::new_default(), &Vec::new(), &Vec::new())
        .expect("create");
    assert_eq!(created.ticket.title, "MCP created");
    // ticket_import
    let plan = store
        .plan_import(
            "/source",
            vec![open_source("T-20260708-009", "MCP imported")],
            created.index,
            &vec![created.ticket.id.clone()],
        )
        .expect("import");
    assert_eq!(
        (plan.summary.imported, plan.summary.active, plan.summary.archived),
        (1, 1, 0)
    );
    let mut plan = plan;
    let imported = plan.tickets.remove(0).ticket;
    assert_eq!(imported.title, "MCP imported");
    // ticket_update_status and ticket_checkpoint
    let doing = store
        .update_status(
            imported,
            StatusPatch {
                status: TicketStatus::Doing,
                artifact: None,
                evidence: None,
                note: None,
            },
            plan.index,
        )
        .expect("doing");
    let mut checkpoint = empty_checkpoint("T-20260708-009");
    checkpoint.phase = Some("qa".to_owned());
    checkpoint.next_type = Some("agent_action".to_owned());
    checkpoint.next_command = Some("cargo test".to_owned());
    checkpoint.next_owner = Some("codex".to_owned());
    let (_, patch) = checkpoint.into_request().expect("checkpoint arguments");
    let checkpointed = store
        .checkpoint_ticket(doing.ticket, patch, doing.index)
        .expect("checkpoint");
    // ticket_agent_actions
    let queue = agent_queue(&vec![checkpointed.ticket]);
    assert_eq!(queue[0].command, Some("cargo test".to_owned()));
    // ticket_create without a title is a call error.
    assert_eq!(check_title("").err(), Some(TicketFlowError::EmptyTitle));
    assert_eq!(INVALID_PARAMS, -32602);
}

#[test]
fn mcp_tools_list_exposes_required_fields_and_enums() {
    assert_eq!(McpTool::TicketCreate.required(), vec!["title"]);
    assert_eq!(McpTool::TicketUpdateStatus.required(), vec!["id", "status"]);
    let status = McpTool::TicketUpdateStatus
        .arguments()
        .into_iter()
        .find(|p| p.name == "status")
        .expect("status argument");
    assert_eq!(status.kind, PropertyKind::Status);
    assert_eq!(
        status.kind.values(),
        vec!["open", "doing", "review", "blocked", "done"]
    );
}
