//! The decisions of the MCP stdio server: how a JSON-RPC request is answered,
//! which tools it offers, and the checks a tool call makes before it runs.
use vstd::prelude::*;

use crate::error::TicketFlowError;
use crate::model::{next_action_type_name, status_name, NextActionType, TicketStatus};
use crate::mutations::{link_kind_name, LinkKind};
use crate::text::{is_blank, is_blank_seq, join2, owned, str_eq};

verus! {

/// JSON-RPC: the request line is not JSON.
pub const PARSE_ERROR: i64 = -32700;

/// JSON-RPC: the request has no method.
pub const INVALID_REQUEST: i64 = -32600;

/// JSON-RPC: the method is unknown.
pub const METHOD_NOT_FOUND: i64 = -32601;

/// JSON-RPC: the parameters of a tool call are wrong, or the call failed.
pub const INVALID_PARAMS: i64 = -32602;

/// How the server answers one request.
#[derive(Debug)]
pub enum McpReply {
    /// The `initialize` result.
    Initialize,
    /// The `tools/list` result.
    ToolsList,
    /// The result of running the tool that the request calls.
    CallTool,
    /// A JSON-RPC error.
    Error { code: i64, message: String },
}

/// The answer to a request with `method` (absent when it has none) and with
/// or without an `id`: `None` when the server stays silent.
pub open spec fn reply_kind(method: Option<Seq<char>>, has_id: bool) -> Option<(int, Seq<char>)> {
    match method {
        None => Some((INVALID_REQUEST as int, "missing method"@)),
        Some(m) => if m == "initialize"@ {
            if has_id {
                Some((0, m))
            } else {
                None
            }
        } else if m == "notifications/initialized"@ {
            None
        } else if m == "tools/list"@ {
            if has_id {
                Some((0, m))
            } else {
                None
            }
        } else if m == "tools/call"@ {
            Some((0, m))
        } else if has_id {
            Some((METHOD_NOT_FOUND as int, "unknown method "@ + m))
        } else {
            None
        },
    }
}

/// Whether `r` answers a request with `method`, as `reply_kind` says.
pub open spec fn is_reply(r: Option<McpReply>, method: Option<Seq<char>>, has_id: bool) -> bool {
    match reply_kind(method, has_id) {
        None => r is None,
        Some((code, text)) => if code == 0 {
            if text == "initialize"@ {
                r matches Some(McpReply::Initialize)
            } else if text == "tools/list"@ {
                r matches Some(McpReply::ToolsList)
            } else {
                r matches Some(McpReply::CallTool)
            }
        } else {
            r matches Some(McpReply::Error { code: c, message }) && c == code && message@ == text
        },
    }
}

/// How the server answers a request with `method` and with or without an `id`.
pub fn route_request(method: Option<String>, has_id: bool) -> (res: Option<McpReply>)
    ensures
        is_reply(
            res,
            match method {
                Some(m) => Some(m@),
                None => None,
            },
            has_id,
        ),
{
    proof {
        reveal_strlit("initialize");
        reveal_strlit("notifications/initialized");
        reveal_strlit("tools/list");
        reveal_strlit("tools/call");
    }
    let m = match method {
        Some(m) => m,
        None => {
            return Some(McpReply::Error { code: INVALID_REQUEST, message: owned("missing method") });
        },
    };
    let text = m.as_str();
    if str_eq(text, "initialize") {
        if has_id {
            Some(McpReply::Initialize)
        } else {
            None
        }
    } else if str_eq(text, "notifications/initialized") {
        None
    } else if str_eq(text, "tools/list") {
        if has_id {
            Some(McpReply::ToolsList)
        } else {
            None
        }
    } else if str_eq(text, "tools/call") {
        Some(McpReply::CallTool)
    } else if has_id {
        Some(McpReply::Error { code: METHOD_NOT_FOUND, message: join2("unknown method ", text) })
    } else {
        None
    }
}

/// The tools that the server offers.
#[derive(Debug, Clone, Copy, PartialEq, Eq, Structural)]
pub enum McpTool {
    TicketCreate,
    TicketList,
    TicketGet,
    TicketImport,
    TicketUpdateStatus,
    TicketLink,
    TicketAddLog,
    TicketCheckpoint,
    TicketAgentActions,
}

/// The name of a tool.
pub open spec fn tool_name(t: McpTool) -> Seq<char> {
    match t {
        McpTool::TicketCreate => "ticket_create"@,
        McpTool::TicketList => "ticket_list"@,
        McpTool::TicketGet => "ticket_get"@,
        McpTool::TicketImport => "ticket_import"@,
        McpTool::TicketUpdateStatus => "ticket_update_status"@,
        McpTool::TicketLink => "ticket_link"@,
        McpTool::TicketAddLog => "ticket_add_log"@,
        McpTool::TicketCheckpoint => "ticket_checkpoint"@,
        McpTool::TicketAgentActions => "ticket_agent_actions"@,
    }
}

/// The tool whose name is `v`.
pub open spec fn tool_from_name(v: Seq<char>) -> Option<McpTool> {
    if v == "ticket_create"@ {
        Some(McpTool::TicketCreate)
    } else if v == "ticket_list"@ {
        Some(McpTool::TicketList)
    } else if v == "ticket_get"@ {
        Some(McpTool::TicketGet)
    } else if v == "ticket_import"@ {
        Some(McpTool::TicketImport)
    } else if v == "ticket_update_status"@ {
        Some(McpTool::TicketUpdateStatus)
    } else if v == "ticket_link"@ {
        Some(McpTool::TicketLink)
    } else if v == "ticket_add_log"@ {
        Some(McpTool::TicketAddLog)
    } else if v == "ticket_checkpoint"@ {
        Some(McpTool::TicketCheckpoint)
    } else if v == "ticket_agent_actions"@ {
        Some(McpTool::TicketAgentActions)
    } else {
        None
    }
}

/// What a tool does, as the tool list describes it.
pub open spec fn tool_description(t: McpTool) -> Seq<char> {
    match t {
        McpTool::TicketCreate => "Create an agent ticket."@,
        McpTool::TicketList => "List active agent tickets."@,
        McpTool::TicketGet => "Read an active or archived ticket."@,
        McpTool::TicketImport => "Import a source ticket store into ticket-flow."@,
        McpTool::TicketUpdateStatus => "Apply a ticket status transition."@,
        McpTool::TicketLink => "Attach an external reference to a ticket."@,
        McpTool::TicketAddLog => "Append a note log entry to a ticket."@,
        McpTool::TicketCheckpoint => "Write the current checkpoint payload."@,
        McpTool::TicketAgentActions => "List tickets with agent_action next actions."@,
    }
}

impl McpTool {
    /// The name of this tool.
    pub fn name(self) -> (res: &'static str)
        ensures
            res@ == tool_name(self),
    {
        match self {
            McpTool::TicketCreate => "ticket_create",
            McpTool::TicketList => "ticket_list",
            McpTool::TicketGet => "ticket_get",
            McpTool::TicketImport => "ticket_import",
            McpTool::TicketUpdateStatus => "ticket_update_status",
            McpTool::TicketLink => "ticket_link",
            McpTool::TicketAddLog => "ticket_add_log",
            McpTool::TicketCheckpoint => "ticket_checkpoint",
            McpTool::TicketAgentActions => "ticket_agent_actions",
        }
    }

    /// What this tool does, as the tool list describes it.
    pub fn description(self) -> (res: &'static str)
        ensures
            res@ == tool_description(self),
    {
        match self {
            McpTool::TicketCreate => "Create an agent ticket.",
            McpTool::TicketList => "List active agent tickets.",
            McpTool::TicketGet => "Read an active or archived ticket.",
            McpTool::TicketImport => "Import a source ticket store into ticket-flow.",
            McpTool::TicketUpdateStatus => "Apply a ticket status transition.",
            McpTool::TicketLink => "Attach an external reference to a ticket.",
            McpTool::TicketAddLog => "Append a note log entry to a ticket.",
            McpTool::TicketCheckpoint => "Write the current checkpoint payload.",
            McpTool::TicketAgentActions => "List tickets with agent_action next actions.",
        }
    }

    /// The tool that a call names; an unknown name is an error.
    pub fn from_name(name: &str) -> (res: Result<McpTool, TicketFlowError>)
        ensures
            res matches Ok(t) ==> tool_from_name(name@) == Some(t),
            res is Err ==> tool_from_name(name@) is None,
            res matches Err(e) ==> (e matches TicketFlowError::UnknownTool(s) && s@ == name@),
    {
        if str_eq(name, "ticket_create") {
            Ok(McpTool::TicketCreate)
        } else if str_eq(name, "ticket_list") {
            Ok(McpTool::TicketList)
        } else if str_eq(name, "ticket_get") {
            Ok(McpTool::TicketGet)
        } else if str_eq(name, "ticket_import") {
            Ok(McpTool::TicketImport)
        } else if str_eq(name, "ticket_update_status") {
            Ok(McpTool::TicketUpdateStatus)
        } else if str_eq(name, "ticket_link") {
            Ok(McpTool::TicketLink)
        } else if str_eq(name, "ticket_add_log") {
            Ok(McpTool::TicketAddLog)
        } else if str_eq(name, "ticket_checkpoint") {
            Ok(McpTool::TicketCheckpoint)
        } else if str_eq(name, "ticket_agent_actions") {
            Ok(McpTool::TicketAgentActions)
        } else {
            Err(TicketFlowError::UnknownTool(owned(name)))
        }
    }
}

/// The tools in the order the tool list gives them.
pub open spec fn all_tools() -> Seq<McpTool> {
    seq![
        McpTool::TicketCreate,
        McpTool::TicketList,
        McpTool::TicketGet,
        McpTool::TicketImport,
        McpTool::TicketUpdateStatus,
        McpTool::TicketLink,
        McpTool::TicketAddLog,
        McpTool::TicketCheckpoint,
        McpTool::TicketAgentActions,
    ]
}

/// The tools that `tools/list` returns, in order.
pub fn tool_definitions() -> (res: Vec<McpTool>)
    ensures
        res@ == all_tools(),
{
    let v = vec![
        McpTool::TicketCreate,
        McpTool::TicketList,
        McpTool::TicketGet,
        McpTool::TicketImport,
        McpTool::TicketUpdateStatus,
        McpTool::TicketLink,
        McpTool::TicketAddLog,
        McpTool::TicketCheckpoint,
        McpTool::TicketAgentActions,
    ];
    assert(v@ =~= all_tools());
    v
}

/// The title check of `ticket_create`: a blank title is refused.
pub fn check_title(title: &str) -> (res: Result<(), TicketFlowError>)
    ensures
        res is Ok <==> !is_blank_seq(title@),
        res matches Err(e) ==> e == TicketFlowError::EmptyTitle,
{
    if is_blank(title) {
        Err(TicketFlowError::EmptyTitle)
    } else {
        Ok(())
    }
}

/// Every tool that the list offers can be called by its name.
pub proof fn law_listed_tools_resolve(t: McpTool)
    ensures
        tool_from_name(tool_name(t)) == Some(t),
{
    reveal_strlit("ticket_create");
    reveal_strlit("ticket_list");
    reveal_strlit("ticket_get");
    reveal_strlit("ticket_import");
    reveal_strlit("ticket_update_status");
    reveal_strlit("ticket_link");
    reveal_strlit("ticket_add_log");
    reveal_strlit("ticket_checkpoint");
    reveal_strlit("ticket_agent_actions");
    let c = "ticket_create"@;
    let l = "ticket_list"@;
    let g = "ticket_get"@;
    let i = "ticket_import"@;
    let u = "ticket_update_status"@;
    let k = "ticket_link"@;
    let a = "ticket_add_log"@;
    let p = "ticket_checkpoint"@;
    let q = "ticket_agent_actions"@;
    assert(c.len() == 13 && i.len() == 13 && c[7] != i[7]);
    assert(l.len() == 11 && k.len() == 11 && l[9] != k[9]);
    assert(u.len() == 20 && q.len() == 20 && u[7] != q[7]);
    assert(g.len() == 10 && a.len() == 14 && p.len() == 17);
}

// ---------------------------------------------------------------------------
// Input schemas
// ---------------------------------------------------------------------------
/// The kind of value a tool argument takes.
#[derive(Debug, Clone, Copy, PartialEq, Eq, Structural)]
pub enum PropertyKind {
    /// A string.
    Text,
    /// An array of strings.
    TextList,
    /// One of the ticket statuses.
    Status,
    /// One of the link kinds.
    LinkKind,
    /// One of the next-action types.
    NextActionType,
}

/// One argument of a tool: its name, the kind of value, and a description
/// (empty for the enumerated kinds, which carry their allowed values instead).
#[derive(Debug)]
pub struct ToolProperty {
    pub name: &'static str,
    pub kind: PropertyKind,
    pub description: &'static str,
}

/// The arguments of a tool, by name, kind and description, in order.
pub open spec fn tool_arguments(t: McpTool) -> Seq<(Seq<char>, PropertyKind, Seq<char>)> {
    match t {
        McpTool::TicketCreate => seq![
            ("title"@, PropertyKind::Text, "Ticket title"@),
            ("type"@, PropertyKind::Text, "Ticket type"@),
            ("priority"@, PropertyKind::Text, "Ticket priority"@),
            ("goal"@, PropertyKind::Text, "Goal statement"@),
            ("assignee"@, PropertyKind::Text, "Ticket owner"@),
            ("acceptance"@, PropertyKind::TextList, "Acceptance criteria"@),
            ("tags"@, PropertyKind::TextList, "Tags"@),
            ("parent"@, PropertyKind::Text, "Parent ticket ID"@),
            ("source"@, PropertyKind::Text, "Source reference as kind:ref"@),
        ],
        McpTool::TicketList => seq![
            ("status"@, PropertyKind::Status, ""@),
        ],
        McpTool::TicketGet => seq![
            ("id"@, PropertyKind::Text, "Ticket ID"@),
        ],
        McpTool::TicketImport => seq![
            ("sourceRoot"@, PropertyKind::Text, "Source ticket store root"@),
        ],
        McpTool::TicketUpdateStatus => seq![
            ("id"@, PropertyKind::Text, "Ticket ID"@),
            ("status"@, PropertyKind::Status, ""@),
            ("artifact"@, PropertyKind::Text, "Artifact value for review/done transitions"@),
            ("evidence"@, PropertyKind::Text, "Evidence artifact value"@),
            ("note"@, PropertyKind::Text, "Status transition note"@),
        ],
        McpTool::TicketLink => seq![
            ("id"@, PropertyKind::Text, "Ticket ID"@),
            ("kind"@, PropertyKind::LinkKind, ""@),
            ("value"@, PropertyKind::Text, "Reference value"@),
        ],
        McpTool::TicketAddLog => seq![
            ("id"@, PropertyKind::Text, "Ticket ID"@),
            ("note"@, PropertyKind::Text, "Log note"@),
        ],
        McpTool::TicketCheckpoint => seq![
            ("id"@, PropertyKind::Text, "Ticket ID"@),
            ("phase"@, PropertyKind::Text, "Current phase"@),
            ("decision"@, PropertyKind::Text, "Current decision"@),
            ("evidence"@, PropertyKind::Text, "Evidence summary"@),
            ("blocker"@, PropertyKind::Text, "Blocker summary"@),
            ("next"@, PropertyKind::Text, "Next step summary"@),
            ("note"@, PropertyKind::Text, "Checkpoint note"@),
            ("nextType"@, PropertyKind::NextActionType, ""@),
            ("nextCommand"@, PropertyKind::Text, "Agent command"@),
            ("nextOwner"@, PropertyKind::Text, "Next owner"@),
        ],
        McpTool::TicketAgentActions => seq![],
    }
}

/// The arguments a call of the tool must give, in order.
pub open spec fn tool_required(t: McpTool) -> Seq<Seq<char>> {
    match t {
        McpTool::TicketCreate => seq!["title"@],
        McpTool::TicketList => seq![],
        McpTool::TicketGet => seq!["id"@],
        McpTool::TicketImport => seq!["sourceRoot"@],
        McpTool::TicketUpdateStatus => seq!["id"@, "status"@],
        McpTool::TicketLink => seq!["id"@, "kind"@, "value"@],
        McpTool::TicketAddLog => seq!["id"@, "note"@],
        McpTool::TicketCheckpoint => seq!["id"@],
        McpTool::TicketAgentActions => seq![],
    }
}

/// The allowed values of an enumerated kind, in order (none for the others).
pub open spec fn kind_values(k: PropertyKind) -> Seq<Seq<char>> {
    match k {
        PropertyKind::Status => seq![
            status_name(TicketStatus::Open),
            status_name(TicketStatus::Doing),
            status_name(TicketStatus::Review),
            status_name(TicketStatus::Blocked),
            status_name(TicketStatus::Done),
        ],
        PropertyKind::LinkKind => seq![
            link_kind_name(LinkKind::GithubIssues),
            link_kind_name(LinkKind::Prs),
            link_kind_name(LinkKind::Threads),
            link_kind_name(LinkKind::CronJobs),
        ],
        PropertyKind::NextActionType => seq![
            next_action_type_name(NextActionType::AgentAction),
            next_action_type_name(NextActionType::OwnerGate),
            next_action_type_name(NextActionType::ReleaseGate),
            next_action_type_name(NextActionType::Blocked),
        ],
        _ => seq![],
    }
}

/// The texts of a list of static strings.
pub open spec fn static_texts(v: Seq<&'static str>) -> Seq<Seq<char>> {
    v.map_values(|s: &'static str| s@)
}

fn prop(name: &'static str, kind: PropertyKind, description: &'static str) -> (res: ToolProperty)
    ensures
        res.name == name,
        res.kind == kind,
        res.description == description,
{
    ToolProperty { name, kind, description }
}

impl PropertyKind {
    /// The allowed values of this kind, for the enumerated kinds.
    pub fn values(self) -> (res: Vec<&'static str>)
        ensures
            static_texts(res@) == kind_values(self),
    {
        let v: Vec<&'static str> = match self {
            PropertyKind::Status => vec!["open", "doing", "review", "blocked", "done"],
            PropertyKind::LinkKind => vec!["github_issues", "prs", "threads", "cron_jobs"],
            PropertyKind::NextActionType => vec![
                "agent_action",
                "owner_gate",
                "release_gate",
                "blocked",
            ],
            _ => Vec::new(),
        };
        assert(static_texts(v@) =~= kind_values(self));
        v
    }
}

impl McpTool {
    /// The arguments of this tool, in order.
    pub fn arguments(self) -> (res: Vec<ToolProperty>)
        ensures
            res@.len() == tool_arguments(self).len(),
            forall|i: int|
                0 <= i < res@.len() ==> (#[trigger] res@[i]).name@ == tool_arguments(self)[i].0
                    && res@[i].kind == tool_arguments(self)[i].1 && res@[i].description@
                    == tool_arguments(self)[i].2,
    {
        let t = PropertyKind::Text;
        let v = match self {
            McpTool::TicketCreate => vec![
                prop("title", t, "Ticket title"),
                prop("type", t, "Ticket type"),
                prop("priority", t, "Ticket priority"),
                prop("goal", t, "Goal statement"),
                prop("assignee", t, "Ticket owner"),
                prop("acceptance", PropertyKind::TextList, "Acceptance criteria"),
                prop("tags", PropertyKind::TextList, "Tags"),
                prop("parent", t, "Parent ticket ID"),
                prop("source", t, "Source reference as kind:ref"),
            ],
            McpTool::TicketList => vec![prop("status", PropertyKind::Status, "")],
            McpTool::TicketGet => vec![prop("id", t, "Ticket ID")],
            McpTool::TicketImport => vec![prop("sourceRoot", t, "Source ticket store root")],
            McpTool::TicketUpdateStatus => vec![
                prop("id", t, "Ticket ID"),
                prop("status", PropertyKind::Status, ""),
                prop("artifact", t, "Artifact value for review/done transitions"),
                prop("evidence", t, "Evidence artifact value"),
                prop("note", t, "Status transition note"),
            ],
            McpTool::TicketLink => vec![
                prop("id", t, "Ticket ID"),
                prop("kind", PropertyKind::LinkKind, ""),
                prop("value", t, "Reference value"),
            ],
            McpTool::TicketAddLog => vec![prop("id", t, "Ticket ID"), prop("note", t, "Log note")],
            McpTool::TicketCheckpoint => vec![
                prop("id", t, "Ticket ID"),
                prop("phase", t, "Current phase"),
                prop("decision", t, "Current decision"),
                prop("evidence", t, "Evidence summary"),
                prop("blocker", t, "Blocker summary"),
                prop("next", t, "Next step summary"),
                prop("note", t, "Checkpoint note"),
                prop("nextType", PropertyKind::NextActionType, ""),
                prop("nextCommand", t, "Agent command"),
                prop("nextOwner", t, "Next owner"),
            ],
            McpTool::TicketAgentActions => Vec::new(),
        };
        v
    }

    /// The arguments that a call of this tool must give.
    pub fn required(self) -> (res: Vec<&'static str>)
        ensures
            static_texts(res@) == tool_required(self),
    {
        let v: Vec<&'static str> = match self {
            McpTool::TicketCreate => vec!["title"],
            McpTool::TicketList => Vec::new(),
            McpTool::TicketGet => vec!["id"],
            McpTool::TicketImport => vec!["sourceRoot"],
            McpTool::TicketUpdateStatus => vec!["id", "status"],
            McpTool::TicketLink => vec!["id", "kind", "value"],
            McpTool::TicketAddLog => vec!["id", "note"],
            McpTool::TicketCheckpoint => vec!["id"],
            McpTool::TicketAgentActions => Vec::new(),
        };
        assert(static_texts(v@) =~= tool_required(self));
        v
    }
}

/// Every argument that a tool requires is one of its arguments.
pub proof fn law_required_arguments_are_declared(t: McpTool, r: int)
    requires
        0 <= r < tool_required(t).len(),
    ensures
        exists|i: int| 0 <= i < tool_arguments(t).len() && #[trigger] tool_arguments(t)[i].0 == tool_required(t)[r],
{
    match t {
        McpTool::TicketCreate => assert(tool_arguments(t)[0].0 == tool_required(t)[r]),
        McpTool::TicketGet => assert(tool_arguments(t)[0].0 == tool_required(t)[r]),
        McpTool::TicketImport => assert(tool_arguments(t)[0].0 == tool_required(t)[r]),
        McpTool::TicketUpdateStatus => {
            if r == 0 {
                assert(tool_arguments(t)[0].0 == tool_required(t)[r]);
            } else {
                assert(tool_arguments(t)[1].0 == tool_required(t)[r]);
            }
        },
        McpTool::TicketLink => {
            if r == 0 {
                assert(tool_arguments(t)[0].0 == tool_required(t)[r]);
            } else if r == 1 {
                assert(tool_arguments(t)[1].0 == tool_required(t)[r]);
            } else {
                assert(tool_arguments(t)[2].0 == tool_required(t)[r]);
            }
        },
        McpTool::TicketAddLog => {
            if r == 0 {
                assert(tool_arguments(t)[0].0 == tool_required(t)[r]);
            } else {
                assert(tool_arguments(t)[1].0 == tool_required(t)[r]);
            }
        },
        McpTool::TicketCheckpoint => assert(tool_arguments(t)[0].0 == tool_required(t)[r]),
        _ => {},
    }
}

} // verus!
