//! Projection of tickets into compact `ticket.*` events for a clawhip daemon.
use vstd::prelude::*;

use crate::error::TicketFlowError;
use crate::model::{clone_opt, status_name, CurrentState, NextAction, NextActionType, TicketStatus};
use crate::text::{ends_with, has_suffix, is_blank_seq, join2, owned, str_eq, trim, trim_seq};
use crate::text::parse_unsigned;
use crate::text::parse_unsigned_spec;
use crate::ticket::Ticket;

verus! {

/// The `ticket.*` events that clawhip routes.
#[derive(Debug, Clone, Copy, PartialEq, Eq, Structural)]
pub enum ClawhipEventKind {
    Created,
    StatusChanged,
    Checkpointed,
    AgentActionAvailable,
    Blocked,
    ReviewReady,
}

/// The wire name of an event kind.
pub open spec fn kind_name(k: ClawhipEventKind) -> Seq<char> {
    match k {
        ClawhipEventKind::Created => "ticket.created"@,
        ClawhipEventKind::StatusChanged => "ticket.status_changed"@,
        ClawhipEventKind::Checkpointed => "ticket.checkpointed"@,
        ClawhipEventKind::AgentActionAvailable => "ticket.agent_action_available"@,
        ClawhipEventKind::Blocked => "ticket.blocked"@,
        ClawhipEventKind::ReviewReady => "ticket.review_ready"@,
    }
}

/// The event kind whose wire name is `v`.
pub open spec fn kind_from_name(v: Seq<char>) -> Option<ClawhipEventKind> {
    if v == "ticket.created"@ {
        Some(ClawhipEventKind::Created)
    } else if v == "ticket.status_changed"@ {
        Some(ClawhipEventKind::StatusChanged)
    } else if v == "ticket.checkpointed"@ {
        Some(ClawhipEventKind::Checkpointed)
    } else if v == "ticket.agent_action_available"@ {
        Some(ClawhipEventKind::AgentActionAvailable)
    } else if v == "ticket.blocked"@ {
        Some(ClawhipEventKind::Blocked)
    } else if v == "ticket.review_ready"@ {
        Some(ClawhipEventKind::ReviewReady)
    } else {
        None
    }
}

impl ClawhipEventKind {
    /// The wire name of this kind.
    pub fn as_str(self) -> (res: &'static str)
        ensures
            res@ == kind_name(self),
    {
        match self {
            ClawhipEventKind::Created => "ticket.created",
            ClawhipEventKind::StatusChanged => "ticket.status_changed",
            ClawhipEventKind::Checkpointed => "ticket.checkpointed",
            ClawhipEventKind::AgentActionAvailable => "ticket.agent_action_available",
            ClawhipEventKind::Blocked => "ticket.blocked",
            ClawhipEventKind::ReviewReady => "ticket.review_ready",
        }
    }

    /// Parses an event kind from its wire name.
    pub fn from_str(value: &str) -> (res: Result<ClawhipEventKind, TicketFlowError>)
        ensures
            res matches Ok(k) ==> kind_from_name(value@) == Some(k),
            res is Err ==> kind_from_name(value@) is None,
            res matches Err(e) ==> (e matches TicketFlowError::InvalidClawhipEventKind(s) && s@
                == value@),
    {
        if str_eq(value, "ticket.created") {
            Ok(ClawhipEventKind::Created)
        } else if str_eq(value, "ticket.status_changed") {
            Ok(ClawhipEventKind::StatusChanged)
        } else if str_eq(value, "ticket.checkpointed") {
            Ok(ClawhipEventKind::Checkpointed)
        } else if str_eq(value, "ticket.agent_action_available") {
            Ok(ClawhipEventKind::AgentActionAvailable)
        } else if str_eq(value, "ticket.blocked") {
            Ok(ClawhipEventKind::Blocked)
        } else if str_eq(value, "ticket.review_ready") {
            Ok(ClawhipEventKind::ReviewReady)
        } else {
            Err(TicketFlowError::InvalidClawhipEventKind(owned(value)))
        }
    }
}

// ---------------------------------------------------------------------------
// Text projection helpers
// ---------------------------------------------------------------------------
/// The text of an optional string.
pub open spec fn opt_text(o: Option<String>) -> Option<Seq<char>> {
    match o {
        Some(s) => Some(s@),
        None => None,
    }
}

/// An optional text trimmed, and dropped when blank.
pub open spec fn resolved(o: Option<Seq<char>>) -> Option<Seq<char>> {
    match o {
        Some(s) => if is_blank_seq(s) {
            None
        } else {
            Some(trim_seq(s))
        },
        None => None,
    }
}

/// `value` trimmed, or `None` when it is absent or blank.
pub fn resolve_text(value: Option<String>) -> (res: Option<String>)
    ensures
        opt_text(res) == resolved(opt_text(value)),
{
    match value {
        Some(text) => {
            let t = trim(text.as_str());
            if t.unicode_len() == 0 {
                None
            } else {
                Some(owned(t))
            }
        },
        None => None,
    }
}

/// The characters after the last `/` of `s` (all of `s` when it has none).
pub open spec fn trailing_segment(s: Seq<char>) -> Seq<char>
    decreases s.len(),
{
    if s.len() == 0 || s.last() == '/' {
        Seq::empty()
    } else {
        trailing_segment(s.drop_last()).push(s.last())
    }
}

/// The last component of a `/`-separated path: trailing slashes and `.`
/// components are skipped; empty when nothing is left.
pub open spec fn last_component(s: Seq<char>) -> Seq<char>
    decreases s.len(),
{
    if s.len() == 0 {
        s
    } else if s.last() == '/' {
        last_component(s.drop_last())
    } else if trailing_segment(s) == seq!['.'] {
        last_component(s.drop_last())
    } else {
        trailing_segment(s)
    }
}

/// The file name of a path (`Path::file_name` on a Unix path): its last
/// component, or none when there is none or it is `..`.
pub open spec fn file_name_of(s: Seq<char>) -> Option<Seq<char>> {
    let c = last_component(s);
    if c.len() == 0 || c == seq!['.', '.'] {
        None
    } else {
        Some(c)
    }
}

proof fn lemma_trailing_segment(s: Seq<char>, start: int)
    requires
        0 <= start <= s.len(),
        start == 0 || s[start - 1] == '/',
        forall|k: int| start <= k < s.len() ==> s[k] != '/',
    ensures
        trailing_segment(s) == s.subrange(start, s.len() as int),
    decreases s.len(),
{
    if s.len() == start {
        assert(s.subrange(start, start) =~= Seq::<char>::empty());
    } else {
        lemma_trailing_segment(s.drop_last(), start);
        assert(s.subrange(start, s.len() as int) =~= s.drop_last().subrange(
            start,
            s.len() - 1,
        ).push(s.last()));
    }
}

/// The repository name of a path: its file name.
pub fn repo_name(path: &str) -> (res: Option<String>)
    ensures
        opt_text(res) == file_name_of(path@),
{
    let n = path.unicode_len();
    let mut end: usize = n;
    assert(path@.subrange(0, n as int) =~= path@);
    loop
        invariant
            n == path@.len(),
            end <= n,
            last_component(path@) == last_component(path@.subrange(0, end as int)),
        decreases end,
    {
        let ghost end0 = end;
        while end > 0 && path.get_char(end - 1) == '/'
            invariant
                n == path@.len(),
                end <= end0 <= n,
                last_component(path@) == last_component(path@.subrange(0, end as int)),
            decreases end,
        {
            assert(path@.subrange(0, end as int).drop_last() =~= path@.subrange(0, end - 1));
            end = end - 1;
        }
        if end == 0 {
            return None;
        }
        let mut start: usize = end;
        while start > 0 && path.get_char(start - 1) != '/'
            invariant
                n == path@.len(),
                start <= end <= n,
                forall|k: int| start <= k < end ==> path@[k] != '/',
            decreases start,
        {
            start = start - 1;
        }
        let ghost s = path@.subrange(0, end as int);
        proof {
            lemma_trailing_segment(s, start as int);
            assert(s.subrange(start as int, end as int) =~= path@.subrange(start as int, end as int));
            assert(s.drop_last() =~= path@.subrange(0, end - 1));
        }
        if end - start == 1 && path.get_char(start) == '.' {
            assert(path@.subrange(start as int, end as int) =~= seq!['.']);
            end = start;
        } else {
            let seg = path.substring_char(start, end);
            if end - start == 2 && path.get_char(start) == '.' && path.get_char(start + 1) == '.' {
                assert(seg@ =~= seq!['.', '.']);
                return None;
            }
            proof {
                if seg@ == seq!['.', '.'] {
                    assert(seg@[0] == path@[start as int]);
                }
                if seg@ == seq!['.'] {
                    assert(seg@[0] == path@[start as int]);
                }
            }
            return Some(owned(seg));
        }
    }
}

/// `s` without its trailing `/` characters.
pub open spec fn strip_trailing_slashes(s: Seq<char>) -> Seq<char>
    decreases s.len(),
{
    if s.len() > 0 && s.last() == '/' {
        strip_trailing_slashes(s.drop_last())
    } else {
        s
    }
}

/// The path suffix of the clawhip event endpoint.
pub open spec fn event_path() -> Seq<char> {
    seq!['/', 'e', 'v', 'e', 'n', 't']
}

/// The event endpoint for a base URL: trailing slashes dropped, then `/event`
/// appended unless the URL already ends with it.
pub open spec fn endpoint_of(base: Seq<char>) -> Seq<char> {
    let t = strip_trailing_slashes(base);
    if has_suffix(t, event_path()) {
        t
    } else {
        t + event_path()
    }
}

proof fn lemma_strip_trailing_slashes(s: Seq<char>)
    ensures
        strip_trailing_slashes(s).len() == 0 || strip_trailing_slashes(s).last() != '/',
    decreases s.len(),
{
    if s.len() > 0 && s.last() == '/' {
        lemma_strip_trailing_slashes(s.drop_last());
    }
}

/// The event endpoint for `base_url`.
pub fn event_endpoint(base_url: &str) -> (res: String)
    ensures
        res@ == endpoint_of(base_url@),
{
    let n = base_url.unicode_len();
    let mut end: usize = n;
    assert(base_url@.subrange(0, n as int) =~= base_url@);
    while end > 0 && base_url.get_char(end - 1) == '/'
        invariant
            n == base_url@.len(),
            end <= n,
            strip_trailing_slashes(base_url@) == strip_trailing_slashes(
                base_url@.subrange(0, end as int),
            ),
        decreases end,
    {
        assert(base_url@.subrange(0, end as int).drop_last() =~= base_url@.subrange(0, end - 1));
        end = end - 1;
    }
    let trimmed = base_url.substring_char(0, end);
    assert(strip_trailing_slashes(trimmed@) == trimmed@);
    proof {
        reveal_strlit("/event");
        assert("/event"@ =~= event_path());
    }
    if ends_with(trimmed, "/event") {
        owned(trimmed)
    } else {
        join2(trimmed, "/event")
    }
}

// ---------------------------------------------------------------------------
// Events
// ---------------------------------------------------------------------------
/// A clawhip incoming event: its type and its flat payload.
#[derive(Debug)]
pub struct ClawhipTicketEvent {
    pub event_type: ClawhipEventKind,
    pub payload: ClawhipTicketPayload,
}

/// The routeable summary of a ticket that an event carries.
#[derive(Debug)]
pub struct ClawhipTicketPayload {
    pub provider: String,
    pub event: ClawhipEventKind,
    pub ticket_id: String,
    pub title: String,
    pub status: TicketStatus,
    pub priority: Option<String>,
    pub ticket_type: Option<String>,
    pub assignee: Option<String>,
    pub from_status: Option<TicketStatus>,
    pub to_status: Option<TicketStatus>,
    pub phase: Option<String>,
    pub decision: Option<String>,
    pub blocker: Option<String>,
    pub next: Option<String>,
    pub next_action_type: Option<NextActionType>,
    pub next_action_command: Option<String>,
    pub next_action_owner: Option<String>,
    pub summary: String,
    pub question_summary: Option<String>,
    pub repo_path: Option<String>,
    pub worktree_path: Option<String>,
    pub repo_name: Option<String>,
    pub event_timestamp: String,
    pub correlation_id: Option<String>,
}

/// What an event is built from.
#[derive(Debug)]
pub struct BuildClawhipEventInput<'a> {
    pub kind: ClawhipEventKind,
    pub ticket: &'a Ticket,
    pub repo_path: Option<String>,
    pub worktree_path: Option<String>,
    pub from_status: Option<TicketStatus>,
    pub to_status: Option<TicketStatus>,
    pub correlation_id: Option<String>,
}

/// A field of the ticket's current state, resolved.
pub open spec fn current_field(t: Ticket, f: spec_fn(CurrentState) -> Option<String>) -> Option<
    Seq<char>,
> {
    match t.current {
        Some(c) => resolved(opt_text(f(c))),
        None => None,
    }
}

/// A field of the ticket's next action, resolved.
pub open spec fn action_field(t: Ticket, f: spec_fn(NextAction) -> Option<String>) -> Option<
    Seq<char>,
> {
    match t.current {
        Some(c) => match c.next_action {
            Some(a) => resolved(opt_text(f(a))),
            None => None,
        },
        None => None,
    }
}

/// The type of the ticket's next action.
pub open spec fn action_type_of(t: Ticket) -> Option<NextActionType> {
    match t.current {
        Some(c) => match c.next_action {
            Some(a) => a.action_type,
            None => None,
        },
        None => None,
    }
}

/// The compact display line `<id> [<status>] <title>`.
pub open spec fn summary_text(t: Ticket) -> Seq<char> {
    t.id@ + seq![' ', '['] + status_name(t.status) + seq![']', ' '] + t.title@
}

/// The question a blocked or review-ready event asks: the blocker, else the
/// next step, else the title; other events ask none.
pub open spec fn question_of(kind: ClawhipEventKind, t: Ticket) -> Option<Seq<char>> {
    match kind {
        ClawhipEventKind::Blocked | ClawhipEventKind::ReviewReady => Some(
            match t.current {
                Some(c) => match c.blocker {
                    Some(b) => b@,
                    None => match c.next {
                        Some(n) => n@,
                        None => t.title@,
                    },
                },
                None => t.title@,
            },
        ),
        _ => None,
    }
}

/// `ev` is the event of `kind` about `t`, with the given repository paths,
/// status change and correlation id.
pub open spec fn is_projection(
    ev: ClawhipTicketEvent,
    kind: ClawhipEventKind,
    t: Ticket,
    repo_path: Option<Seq<char>>,
    worktree_path: Option<Seq<char>>,
    from_status: Option<TicketStatus>,
    to_status: Option<TicketStatus>,
    correlation_id: Option<Seq<char>>,
) -> bool {
    let p = ev.payload;
    let repo = resolved(repo_path);
    &&& ev.event_type == kind
    &&& p.provider@ == "ticket-flow"@
    &&& p.event == kind
    &&& p.ticket_id@ == t.id@
    &&& p.title == t.title
    &&& p.status == t.status
    &&& opt_text(p.priority) == resolved(Some(t.priority@))
    &&& opt_text(p.ticket_type) == resolved(Some(t.ticket_type@))
    &&& opt_text(p.assignee) == resolved(Some(t.assignee@))
    &&& p.from_status == from_status
    &&& p.to_status == to_status
    &&& opt_text(p.phase) == current_field(t, |c: CurrentState| c.phase)
    &&& opt_text(p.decision) == current_field(t, |c: CurrentState| c.decision)
    &&& opt_text(p.blocker) == current_field(t, |c: CurrentState| c.blocker)
    &&& opt_text(p.next) == current_field(t, |c: CurrentState| c.next)
    &&& p.next_action_type == action_type_of(t)
    &&& opt_text(p.next_action_command) == action_field(t, |a: NextAction| a.command)
    &&& opt_text(p.next_action_owner) == action_field(t, |a: NextAction| a.owner)
    &&& p.summary@ == summary_text(t)
    &&& opt_text(p.question_summary) == question_of(kind, t)
    &&& opt_text(p.repo_path) == repo
    &&& opt_text(p.worktree_path) == (if resolved(worktree_path) is Some {
        resolved(worktree_path)
    } else {
        repo
    })
    &&& opt_text(p.repo_name) == (match repo {
        Some(r) => file_name_of(r),
        None => None,
    })
    &&& p.event_timestamp == t.updated
    &&& opt_text(p.correlation_id) == resolved(correlation_id)
}

/// The question of an event of `kind` about `ticket`.
pub fn question_summary(kind: ClawhipEventKind, ticket: &Ticket) -> (res: Option<String>)
    ensures
        opt_text(res) == question_of(kind, *ticket),
{
    match kind {
        ClawhipEventKind::Blocked | ClawhipEventKind::ReviewReady => {
            let found = match &ticket.current {
                Some(c) => match &c.blocker {
                    Some(b) => Some(b.clone()),
                    None => clone_opt(&c.next),
                },
                None => None,
            };
            match found {
                Some(q) => Some(q),
                None => Some(ticket.title.clone()),
            }
        },
        _ => None,
    }
}

/// The display line of a ticket.
pub fn summary_line(ticket: &Ticket) -> (res: String)
    ensures
        res@ == summary_text(*ticket),
{
    let mut s = ticket.id.to_text();
    s.append(" [");
    s.append(ticket.status.as_str());
    s.append("] ");
    s.append(ticket.title.as_str());
    proof {
        reveal_strlit(" [");
        reveal_strlit("] ");
        assert(s@ =~= summary_text(*ticket));
    }
    s
}

/// The event of `input.kind` about `input.ticket`.
pub fn build_clawhip_event(input: BuildClawhipEventInput<'_>) -> (res: ClawhipTicketEvent)
    ensures
        is_projection(
            res,
            input.kind,
            *input.ticket,
            opt_text(input.repo_path),
            opt_text(input.worktree_path),
            input.from_status,
            input.to_status,
            opt_text(input.correlation_id),
        ),
        res.payload.from_status == input.from_status,
        res.payload.to_status == input.to_status,
{
    let ticket = input.ticket;
    let repo_path = resolve_text(input.repo_path);
    let worktree = resolve_text(input.worktree_path);
    let worktree_path = match worktree {
        Some(w) => Some(w),
        None => clone_opt(&repo_path),
    };
    let repo_name = match &repo_path {
        Some(p) => repo_name(p.as_str()),
        None => None,
    };
    let (phase, decision, blocker, next, next_action_type, command, owner) = match &ticket.current {
        Some(c) => {
            let (t, cmd, own) = match &c.next_action {
                Some(a) => (a.action_type, resolve_text(clone_opt(&a.command)), resolve_text(
                    clone_opt(&a.owner),
                )),
                None => (None, None, None),
            };
            (
                resolve_text(clone_opt(&c.phase)),
                resolve_text(clone_opt(&c.decision)),
                resolve_text(clone_opt(&c.blocker)),
                resolve_text(clone_opt(&c.next)),
                t,
                cmd,
                own,
            )
        },
        None => (None, None, None, None, None, None, None),
    };
    let payload = ClawhipTicketPayload {
        provider: owned("ticket-flow"),
        event: input.kind,
        ticket_id: ticket.id.to_text(),
        title: ticket.title.clone(),
        status: ticket.status,
        priority: resolve_text(Some(ticket.priority.clone())),
        ticket_type: resolve_text(Some(ticket.ticket_type.clone())),
        assignee: resolve_text(Some(ticket.assignee.clone())),
        from_status: input.from_status,
        to_status: input.to_status,
        phase,
        decision,
        blocker,
        next,
        next_action_type,
        next_action_command: command,
        next_action_owner: owner,
        summary: summary_line(ticket),
        question_summary: question_summary(input.kind, ticket),
        repo_path,
        worktree_path,
        repo_name,
        event_timestamp: ticket.updated.clone(),
        correlation_id: resolve_text(input.correlation_id),
    };
    ClawhipTicketEvent { event_type: input.kind, payload }
}

// ---------------------------------------------------------------------------
// Delivery
// ---------------------------------------------------------------------------
/// The daemon address used when none is configured.
pub const DEFAULT_CLAWHIP_URL: &'static str = "http://127.0.0.1:25294";

/// The send timeout, in milliseconds, used when none is configured.
pub const DEFAULT_TIMEOUT_MS: u64 = 1000;

/// How a delivery failure is reported.
#[derive(Debug, Clone, Copy, PartialEq, Eq, Structural)]
pub enum ClawhipSendMode {
    /// The failure is recorded in the result; the caller goes on.
    BestEffort,
    /// The failure is an error.
    Strict,
}

/// One event to deliver, with where and how.
#[derive(Debug)]
pub struct SendClawhipEventInput {
    pub url: Option<String>,
    pub event: ClawhipTicketEvent,
    pub mode: ClawhipSendMode,
    pub timeout_ms: u64,
}

/// The outcome of a delivery.
#[derive(Debug)]
pub struct ClawhipSendResult {
    pub ok: bool,
    pub status: Option<u16>,
    pub error: Option<String>,
}

/// The endpoint that a delivery with the configured `url` posts to.
pub fn delivery_endpoint(url: &Option<String>) -> (res: String)
    ensures
        res@ == endpoint_of(
            match url {
                Some(u) => u@,
                None => DEFAULT_CLAWHIP_URL@,
            },
        ),
{
    match url {
        Some(u) => event_endpoint(u.as_str()),
        None => event_endpoint(DEFAULT_CLAWHIP_URL),
    }
}

/// Whether an HTTP status is a success (2xx).
pub open spec fn is_success_status(code: u16) -> bool {
    200 <= code < 300
}

/// What a delivery reports for the daemon's reply (the HTTP status it
/// answered with, or the message of a transport failure) in `mode`: any
/// answer is a delivered result carrying its status, except that strict mode
/// fails a status outside 2xx with `ClawhipHttpStatus`; a transport failure
/// is an `Http` error in strict mode and a failed result with its message
/// otherwise.
pub open spec fn send_outcome_holds(
    mode: ClawhipSendMode,
    reply: Result<u16, String>,
    res: Result<ClawhipSendResult, TicketFlowError>,
) -> bool {
    match reply {
        Ok(code) => if is_success_status(code) {
            (res matches Ok(r) && r.ok && r.status == Some(code) && r.error is None)
        } else if mode == ClawhipSendMode::Strict {
            res == Err::<ClawhipSendResult, TicketFlowError>(TicketFlowError::ClawhipHttpStatus(code))
        } else {
            (res matches Ok(r) && r.ok && r.status == Some(code) && r.error is None)
        },
        Err(msg) => if mode == ClawhipSendMode::Strict {
            (res matches Err(e) && e matches TicketFlowError::Http(m) && m@ == msg@)
        } else {
            (res matches Ok(r) && !r.ok && r.status is None && opt_text(r.error) == Some(msg@))
        },
    }
}

/// What a delivery reports, given the daemon's reply: the HTTP status it
/// answered with, or the message of a transport failure.
pub fn send_outcome(mode: ClawhipSendMode, reply: Result<u16, String>) -> (res: Result<
    ClawhipSendResult,
    TicketFlowError,
>)
    ensures
        send_outcome_holds(mode, reply, res),
{
    match reply {
        Ok(code) => {
            if 200 <= code && code < 300 {
                Ok(ClawhipSendResult { ok: true, status: Some(code), error: None })
            } else {
                match mode {
                    ClawhipSendMode::Strict => Err(TicketFlowError::ClawhipHttpStatus(code)),
                    ClawhipSendMode::BestEffort => Ok(
                        ClawhipSendResult { ok: true, status: Some(code), error: None },
                    ),
                }
            }
        },
        Err(msg) => match mode {
            ClawhipSendMode::Strict => Err(TicketFlowError::Http(msg)),
            ClawhipSendMode::BestEffort => Ok(
                ClawhipSendResult { ok: false, status: None, error: Some(msg) },
            ),
        },
    }
}

// ---------------------------------------------------------------------------
// Automatic delivery settings
// ---------------------------------------------------------------------------
/// The values that turn automatic delivery on: `1`, `true`, `yes`, `on`.
pub open spec fn is_enabled_word(v: Seq<char>) -> bool {
    v == "1"@ || v == "true"@ || v == "yes"@ || v == "on"@
}

/// Whether the `TICKET_FLOW_CLAWHIP` value turns automatic delivery on.
pub fn clawhip_enabled(value: &Option<String>) -> (res: bool)
    ensures
        res == (value matches Some(v) && is_enabled_word(v@)),
{
    match value {
        Some(v) => {
            let v = v.as_str();
            str_eq(v, "1") || str_eq(v, "true") || str_eq(v, "yes") || str_eq(v, "on")
        },
        None => false,
    }
}

/// The timeout that a `TICKET_FLOW_CLAWHIP_TIMEOUT_MS` value gives: a positive
/// integer as written, else the default.
pub open spec fn timeout_from(o: Option<Seq<char>>) -> u64 {
    match o {
        Some(v) => match parse_unsigned_spec(v, u64::MAX as nat) {
            Some(n) => if n > 0 {
                n as u64
            } else {
                DEFAULT_TIMEOUT_MS
            },
            None => DEFAULT_TIMEOUT_MS,
        },
        None => DEFAULT_TIMEOUT_MS,
    }
}

/// The send timeout for a `TICKET_FLOW_CLAWHIP_TIMEOUT_MS` value.
pub fn clawhip_timeout_ms(value: &Option<String>) -> (res: u64)
    ensures
        res == timeout_from(opt_text(*value)),
{
    match value {
        Some(v) => match parse_unsigned(v.as_str(), u64::MAX) {
            Some(n) => if n > 0 {
                n
            } else {
                DEFAULT_TIMEOUT_MS
            },
            None => DEFAULT_TIMEOUT_MS,
        },
        None => DEFAULT_TIMEOUT_MS,
    }
}

/// The send mode for a `TICKET_FLOW_CLAWHIP_MODE` value: strict only for
/// `strict`.
pub fn clawhip_mode(value: &Option<String>) -> (res: ClawhipSendMode)
    ensures
        (res == ClawhipSendMode::Strict) == (value matches Some(v) && v@ == "strict"@),
{
    match value {
        Some(v) => if str_eq(v.as_str(), "strict") {
            ClawhipSendMode::Strict
        } else {
            ClawhipSendMode::BestEffort
        },
        None => ClawhipSendMode::BestEffort,
    }
}

/// The environment values that configure automatic delivery, as read.
#[derive(Debug)]
pub struct ClawhipEnv {
    /// `TICKET_FLOW_CLAWHIP`
    pub enabled: Option<String>,
    /// `TICKET_FLOW_CLAWHIP_URL`
    pub url: Option<String>,
    /// `TICKET_FLOW_CLAWHIP_MODE`
    pub mode: Option<String>,
    /// `TICKET_FLOW_CLAWHIP_TIMEOUT_MS`
    pub timeout_ms: Option<String>,
    /// `TICKET_FLOW_REPO_PATH`
    pub repo_path: Option<String>,
    /// `TICKET_FLOW_WORKTREE_PATH`
    pub worktree_path: Option<String>,
}

/// An event that a store mutation announces.
#[derive(Debug)]
pub struct EnvClawhipEmit<'a> {
    pub kind: ClawhipEventKind,
    pub ticket: &'a Ticket,
    pub from_status: Option<TicketStatus>,
    pub to_status: Option<TicketStatus>,
}

/// The delivery that automatic emission makes for `emit` under `env`: none
/// unless it is enabled; else the event projected with the configured
/// repository paths, sent to the configured URL with the configured mode and
/// timeout.
pub fn plan_env_delivery(env: ClawhipEnv, emit: EnvClawhipEmit<'_>) -> (res: Option<
    SendClawhipEventInput,
>)
    ensures
        res is Some <==> (env.enabled matches Some(v) && is_enabled_word(v@)),
        res matches Some(d) ==> {
            &&& d.url == env.url
            &&& (d.mode == ClawhipSendMode::Strict) == (env.mode matches Some(v) && v@
                == "strict"@)
            &&& d.timeout_ms == timeout_from(opt_text(env.timeout_ms))
            &&& is_projection(
                d.event,
                emit.kind,
                *emit.ticket,
                opt_text(env.repo_path),
                opt_text(env.worktree_path),
                emit.from_status,
                emit.to_status,
                None,
            )
        },
{
    if !clawhip_enabled(&env.enabled) {
        return None;
    }
    let mode = clawhip_mode(&env.mode);
    let timeout_ms = clawhip_timeout_ms(&env.timeout_ms);
    let event = build_clawhip_event(
        BuildClawhipEventInput {
            kind: emit.kind,
            ticket: emit.ticket,
            repo_path: env.repo_path,
            worktree_path: env.worktree_path,
            from_status: emit.from_status,
            to_status: emit.to_status,
            correlation_id: None,
        },
    );
    Some(SendClawhipEventInput { url: env.url, event, mode, timeout_ms })
}

/// Asking for the event endpoint of an event endpoint gives it back.
pub proof fn law_event_endpoint_idempotent(base: Seq<char>)
    ensures
        endpoint_of(endpoint_of(base)) == endpoint_of(base),
{
    let t = strip_trailing_slashes(base);
    lemma_strip_trailing_slashes(base);
    if has_suffix(t, event_path()) {
        assert(strip_trailing_slashes(t) == t);
    } else {
        let e = t + event_path();
        assert(e.last() == 't');
        assert(strip_trailing_slashes(e) == e);
        assert(e.subrange(e.len() - 6, e.len() as int) =~= event_path());
    }
}

} // verus!
