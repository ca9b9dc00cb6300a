//! Links and notes added to a ticket.
use vstd::prelude::*;

use crate::clock::{is_clock_text, now_rfc3339};
use crate::error::TicketFlowError;
use crate::event::{EventEnvelope, EventPayload, TICKET_LINKED, TICKET_LOG_ADDED, is_event};
use crate::model::{LinkMap, LogEntry, TicketId};
use crate::store::TicketStore;
use crate::text::{owned, str_eq};
use crate::ticket::{same_identity, Ticket};

verus! {

/// The kinds of external reference a ticket keeps.
#[derive(Debug, Clone, Copy, PartialEq, Eq, Structural)]
pub enum LinkKind {
    GithubIssues,
    Prs,
    Threads,
    CronJobs,
}

/// The wire name of a link kind.
pub open spec fn link_kind_name(k: LinkKind) -> Seq<char> {
    match k {
        LinkKind::GithubIssues => "github_issues"@,
        LinkKind::Prs => "prs"@,
        LinkKind::Threads => "threads"@,
        LinkKind::CronJobs => "cron_jobs"@,
    }
}

/// The link kind whose wire name is `v`.
pub open spec fn link_kind_from_name(v: Seq<char>) -> Option<LinkKind> {
    if v == "github_issues"@ {
        Some(LinkKind::GithubIssues)
    } else if v == "prs"@ {
        Some(LinkKind::Prs)
    } else if v == "threads"@ {
        Some(LinkKind::Threads)
    } else if v == "cron_jobs"@ {
        Some(LinkKind::CronJobs)
    } else {
        None
    }
}

impl LinkKind {
    /// The wire name of this kind.
    pub fn as_str(self) -> (res: &'static str)
        ensures
            res@ == link_kind_name(self),
    {
        match self {
            LinkKind::GithubIssues => "github_issues",
            LinkKind::Prs => "prs",
            LinkKind::Threads => "threads",
            LinkKind::CronJobs => "cron_jobs",
        }
    }

    /// Parses a link kind from its wire name.
    pub fn from_str(value: &str) -> (res: Result<LinkKind, TicketFlowError>)
        ensures
            res matches Ok(k) ==> link_kind_from_name(value@) == Some(k),
            res is Err ==> link_kind_from_name(value@) is None,
            res matches Err(e) ==> (e matches TicketFlowError::InvalidLinkKind(s) && s@ == value@),
    {
        if str_eq(value, "github_issues") {
            Ok(LinkKind::GithubIssues)
        } else if str_eq(value, "prs") {
            Ok(LinkKind::Prs)
        } else if str_eq(value, "threads") {
            Ok(LinkKind::Threads)
        } else if str_eq(value, "cron_jobs") {
            Ok(LinkKind::CronJobs)
        } else {
            Err(TicketFlowError::InvalidLinkKind(owned(value)))
        }
    }
}

/// A reference to attach to a ticket.
#[derive(Debug)]
pub struct LinkTicketInput {
    pub kind: LinkKind,
    pub value: String,
}

/// A note to append to a ticket's log.
#[derive(Debug)]
pub struct AddLogInput {
    pub note: String,
}

/// A changed ticket and the event that records the change.
#[derive(Debug)]
pub struct TicketChange {
    pub ticket: Ticket,
    pub event: EventEnvelope,
}

/// Whether some string in `v` reads `t`.
pub open spec fn holds_text(v: Seq<String>, t: Seq<char>) -> bool {
    exists|i: int| 0 <= i < v.len() && v[i]@ == t
}

/// `v` with `value` appended, unless it already holds that text.
pub open spec fn with_unique(v: Seq<String>, value: String) -> Seq<String> {
    if holds_text(v, value@) {
        v
    } else {
        v.push(value)
    }
}

/// Appends `value` to `v` unless `v` already holds it.
pub fn push_unique(v: &mut Vec<String>, value: String)
    ensures
        final(v)@ == with_unique(old(v)@, value),
{
    let mut i: usize = 0;
    while i < v.len()
        invariant
            i <= v@.len(),
            v@ == old(v)@,
            forall|j: int| 0 <= j < i ==> v@[j]@ != value@,
        decreases v@.len() - i,
    {
        if v[i] == value {
            return;
        }
        i = i + 1;
    }
    v.push(value);
}

/// The list of `links` that holds references of `kind`.
pub open spec fn links_of(links: LinkMap, kind: LinkKind) -> Seq<String> {
    match kind {
        LinkKind::GithubIssues => links.github_issues@,
        LinkKind::Prs => links.prs@,
        LinkKind::Threads => links.threads@,
        LinkKind::CronJobs => links.cron_jobs@,
    }
}

/// Whether `new` is `old` with `value` added (once) to the list of `kind`.
pub open spec fn link_added(old: LinkMap, new: LinkMap, kind: LinkKind, value: String) -> bool {
    &&& links_of(new, kind) == with_unique(links_of(old, kind), value)
    &&& forall|k: LinkKind| k != kind ==> links_of(new, k) == links_of(old, k)
    &&& new.extra == old.extra
}

/// Adds `value` to the list of `kind` in `links`, unless it is there already.
pub fn links_for_kind(links: &mut LinkMap, kind: LinkKind, value: String)
    ensures
        link_added(*old(links), *final(links), kind, value),
{
    match kind {
        LinkKind::GithubIssues => push_unique(&mut links.github_issues, value),
        LinkKind::Prs => push_unique(&mut links.prs, value),
        LinkKind::Threads => push_unique(&mut links.threads, value),
        LinkKind::CronJobs => push_unique(&mut links.cron_jobs, value),
    }
}

/// Whether `new` is `old` with `value` linked under `kind` at `now`.
pub open spec fn link_applied(old: Ticket, new: Ticket, kind: LinkKind, value: String, now: String) -> bool {
    &&& same_identity(old, new)
    &&& link_added(old.links, new.links, kind, value)
    &&& new.updated == now
    &&& new.status == old.status
    &&& new.artifacts == old.artifacts
    &&& new.closed == old.closed
    &&& new.log == old.log
    &&& new.current == old.current
    &&& new.coordination == old.coordination
    &&& new.evidence == old.evidence
}

/// Whether `e` is the log entry of the note `note` at `now`.
pub open spec fn is_note_log(e: LogEntry, note: String, now: String) -> bool {
    &&& e.ts == now
    &&& e.action matches Some(a) && a@ == "note"@
    &&& e.note == Some(note)
    &&& e.phase is None
    &&& e.decision is None
    &&& e.evidence is None
    &&& e.blocker is None
    &&& e.next is None
    &&& e.next_action is None
    &&& e.extra@.len() == 0
}

/// Whether `new` is `old` with the note `note` logged at `now`.
pub open spec fn note_applied(old: Ticket, new: Ticket, note: String, now: String) -> bool {
    &&& same_identity(old, new)
    &&& new.log@.len() == old.log@.len() + 1
    &&& new.log@.drop_last() == old.log@
    &&& is_note_log(new.log@.last(), note, now)
    &&& new.updated == now
    &&& new.status == old.status
    &&& new.artifacts == old.artifacts
    &&& new.links == old.links
    &&& new.closed == old.closed
    &&& new.current == old.current
    &&& new.coordination == old.coordination
    &&& new.evidence == old.evidence
}

impl TicketStore {
    /// Attaches the reference `input.value` under `input.kind`; a reference
    /// already present is not added twice.
    pub fn link_ticket(&self, ticket: Ticket, input: LinkTicketInput) -> (res: TicketChange)
        ensures
            is_clock_text(res.ticket.updated@),
            link_applied(ticket, res.ticket, input.kind, input.value, res.ticket.updated),
            is_event(res.event, ticket.id, TICKET_LINKED@, EventPayload::Linked(input.kind)),
    {
        let mut ticket = ticket;
        let now = now_rfc3339();
        links_for_kind(&mut ticket.links, input.kind, input.value);
        ticket.updated = now;
        let event = EventEnvelope::new(ticket.id.clone(), TICKET_LINKED, EventPayload::Linked(input.kind));
        TicketChange { ticket, event }
    }

    /// Appends the note `input.note` to the ticket's log.
    pub fn add_log(&self, ticket: Ticket, input: AddLogInput) -> (res: TicketChange)
        ensures
            is_clock_text(res.ticket.updated@),
            note_applied(ticket, res.ticket, input.note, res.ticket.updated),
            is_event(
                res.event,
                ticket.id,
                TICKET_LOG_ADDED@,
                EventPayload::LogAdded { note: input.note },
            ),
    {
        let mut ticket = ticket;
        let now = now_rfc3339();
        let ghost before = ticket.log@;
        ticket.log.push(
            LogEntry {
                ts: now.clone(),
                action: Some(owned("note")),
                note: Some(input.note.clone()),
                phase: None,
                decision: None,
                evidence: None,
                blocker: None,
                next: None,
                next_action: None,
                extra: Vec::new(),
            },
        );
        assert(ticket.log@.drop_last() =~= before);
        ticket.updated = now;
        let event = EventEnvelope::new(
            ticket.id.clone(),
            TICKET_LOG_ADDED,
            EventPayload::LogAdded { note: input.note },
        );
        TicketChange { ticket, event }
    }
}

/// Linking the same reference twice leaves the links as one link does.
pub proof fn law_link_idempotent(v: Seq<String>, value: String)
    ensures
        with_unique(with_unique(v, value), value) == with_unique(v, value),
{
    if !holds_text(v, value@) {
        let w = v.push(value);
        assert(w[v.len() as int]@ == value@);
    }
}

} // verus!
