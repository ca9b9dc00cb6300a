//! Status transitions.
use vstd::prelude::*;

use crate::clock::{is_clock_text, is_rfc3339_text, now_rfc3339};
use crate::error::TicketFlowError;
use crate::event::{EventEnvelope, EventPayload, TICKET_STATUS_CHANGED, is_event};
use crate::model::{clone_opt, status_name, Artifact, LogEntry, TicketStatus};
use crate::store::{
    archive_month_for_ticket, is_archive_month_seq, lemma_clock_text_month, ticket_archive_month,
    TicketStore,
};
use crate::text::{join2, owned};
use crate::ticket::{is_artifact, is_summary_of, same_identity, Ticket, TicketIndex};

verus! {

/// A requested status change, with what it records.
#[derive(Debug)]
pub struct StatusPatch {
    pub status: TicketStatus,
    pub artifact: Option<String>,
    pub evidence: Option<String>,
    pub note: Option<String>,
}

/// The workflow: open to doing or blocked; doing to review, blocked or open;
/// review to done or open; blocked to doing or open; done is final.
pub open spec fn may_transition(from: TicketStatus, to: TicketStatus) -> bool {
    match from {
        TicketStatus::Open => to == TicketStatus::Doing || to == TicketStatus::Blocked,
        TicketStatus::Doing => to == TicketStatus::Review || to == TicketStatus::Blocked || to
            == TicketStatus::Open,
        TicketStatus::Review => to == TicketStatus::Done || to == TicketStatus::Open,
        TicketStatus::Blocked => to == TicketStatus::Doing || to == TicketStatus::Open,
        TicketStatus::Done => false,
    }
}

/// Whether a ticket may move from `from` to `to`.
pub fn can_transition(from: TicketStatus, to: TicketStatus) -> (res: bool)
    ensures
        res == may_transition(from, to),
        res <==> ({
            ||| (from, to) == (TicketStatus::Open, TicketStatus::Doing)
            ||| (from, to) == (TicketStatus::Open, TicketStatus::Blocked)
            ||| (from, to) == (TicketStatus::Doing, TicketStatus::Review)
            ||| (from, to) == (TicketStatus::Doing, TicketStatus::Blocked)
            ||| (from, to) == (TicketStatus::Doing, TicketStatus::Open)
            ||| (from, to) == (TicketStatus::Review, TicketStatus::Done)
            ||| (from, to) == (TicketStatus::Review, TicketStatus::Open)
            ||| (from, to) == (TicketStatus::Blocked, TicketStatus::Doing)
            ||| (from, to) == (TicketStatus::Blocked, TicketStatus::Open)
        }),
{
    match from {
        TicketStatus::Open => to == TicketStatus::Doing || to == TicketStatus::Blocked,
        TicketStatus::Doing => to == TicketStatus::Review || to == TicketStatus::Blocked || to
            == TicketStatus::Open,
        TicketStatus::Review => to == TicketStatus::Done || to == TicketStatus::Open,
        TicketStatus::Blocked => to == TicketStatus::Doing || to == TicketStatus::Open,
        TicketStatus::Done => false,
    }
}

/// Why a status change is refused, if it is: the transition is not in the
/// workflow, or review is requested with no artifact given or present.
pub open spec fn status_refusal(ticket: Ticket, patch: StatusPatch) -> Option<TicketFlowError> {
    if !may_transition(ticket.status, patch.status) {
        Some(TicketFlowError::InvalidTransition { from: ticket.status, to: patch.status })
    } else if patch.status == TicketStatus::Review && patch.artifact is None
        && ticket.artifacts@.len() == 0 {
        Some(TicketFlowError::ReviewArtifactRequired)
    } else {
        None
    }
}

/// The log action of a transition: `<from> -> <to>`.
pub open spec fn transition_text(from: TicketStatus, to: TicketStatus) -> Seq<char> {
    status_name(from) + " -> "@ + status_name(to)
}

/// Whether `e` is the log entry of a transition from `from` to `to` with `note`, at `now`.
pub open spec fn is_status_log(
    e: LogEntry,
    from: TicketStatus,
    to: TicketStatus,
    note: Option<String>,
    now: String,
) -> bool {
    &&& e.ts == now
    &&& e.action matches Some(a) && a@ == transition_text(from, to)
    &&& e.note == note
    &&& e.phase is None
    &&& e.decision is None
    &&& e.evidence is None
    &&& e.blocker is None
    &&& e.next is None
    &&& e.next_action is None
    &&& e.extra@.len() == 0
}

/// Whether `new` is `old` after the accepted status change `patch` at `now`:
/// the status and `updated` change, `closed` is set on done, the given
/// artifact and evidence are appended as artifacts, and the transition is logged.
pub open spec fn status_applied(old: Ticket, new: Ticket, patch: StatusPatch, now: String) -> bool {
    let base = old.artifacts@.len();
    let with_artifact: int = if patch.artifact is Some {
        1
    } else {
        0
    };
    let with_evidence: int = if patch.evidence is Some {
        1
    } else {
        0
    };
    &&& same_identity(old, new)
    &&& new.status == patch.status
    &&& new.updated == now
    &&& new.closed == if patch.status == TicketStatus::Done {
        Some(now)
    } else {
        old.closed
    }
    &&& new.artifacts@.len() == base + with_artifact + with_evidence
    &&& new.artifacts@.subrange(0, base as int) == old.artifacts@
    &&& patch.artifact matches Some(v) ==> is_artifact(new.artifacts@[base as int], "artifact"@, v, now)
    &&& patch.evidence matches Some(v) ==> is_artifact(
        new.artifacts@[base + with_artifact],
        "evidence"@,
        v,
        now,
    )
    &&& new.log@.len() == old.log@.len() + 1
    &&& new.log@.drop_last() == old.log@
    &&& is_status_log(new.log@.last(), old.status, patch.status, patch.note, now)
    &&& new.links == old.links
    &&& new.current == old.current
    &&& new.coordination == old.coordination
    &&& new.evidence == old.evidence
}

/// The log entry of a transition.
pub fn status_log(from: TicketStatus, to: TicketStatus, note: Option<String>, now: String) -> (res:
    LogEntry)
    ensures
        is_status_log(res, from, to, note, now),
{
    let mut action = join2(from.as_str(), " -> ");
    action.append(to.as_str());
    LogEntry {
        ts: now,
        action: Some(action),
        note,
        phase: None,
        decision: None,
        evidence: None,
        blocker: None,
        next: None,
        next_action: None,
        extra: Vec::new(),
    }
}

/// Applies the accepted status change `patch` to `ticket` at `now`.
pub fn apply_status(ticket: Ticket, patch: StatusPatch, now: String) -> (res: Result<
    Ticket,
    TicketFlowError,
>)
    ensures
        status_refusal(ticket, patch) matches Some(e) ==> res == Err::<Ticket, TicketFlowError>(e),
        status_refusal(ticket, patch) is None ==> (res matches Ok(t) && status_applied(
            ticket,
            t,
            patch,
            now,
        )),
{
    let from = ticket.status;
    if !can_transition(from, patch.status) {
        return Err(TicketFlowError::InvalidTransition { from, to: patch.status });
    }
    if patch.status == TicketStatus::Review && patch.artifact.is_none()
        && ticket.artifacts.len() == 0 {
        return Err(TicketFlowError::ReviewArtifactRequired);
    }
    let ghost old_ticket = ticket;
    let mut ticket = ticket;
    ticket.status = patch.status;
    ticket.updated = now.clone();
    if patch.status == TicketStatus::Done {
        ticket.closed = Some(now.clone());
    }
    let ghost base = ticket.artifacts@.len();
    if let Some(value) = &patch.artifact {
        ticket.artifacts.push(Artifact::new(owned("artifact"), value.clone(), now.clone()));
    }
    if let Some(value) = &patch.evidence {
        ticket.artifacts.push(Artifact::new(owned("evidence"), value.clone(), now.clone()));
    }
    let ghost mid_log = ticket.log@;
    ticket.log.push(status_log(from, patch.status, clone_opt(&patch.note), now));
    assert(ticket.log@.drop_last() =~= mid_log);
    assert(ticket.artifacts@.subrange(0, base as int) =~= old_ticket.artifacts@);
    Ok(ticket)
}

/// What an accepted status change writes: the ticket, its event, the new
/// index, and the archive month when the ticket is done.
#[derive(Debug)]
pub struct StatusChange {
    pub ticket: Ticket,
    pub event: EventEnvelope,
    pub index: TicketIndex,
    pub archive_month: Option<String>,
}

impl TicketStore {
    /// The index after `ticket` is written to the active directory: its
    /// summary replaces any earlier one.
    pub fn commit_active(&self, ticket: &Ticket, index: &mut TicketIndex)
        ensures
            final(index).tickets_map().dom() == old(index).tickets_map().dom().insert(ticket.id@),
            is_summary_of(final(index).tickets_map()[ticket.id@], *ticket),
            forall|k: Seq<char>|
                k != ticket.id@ && #[trigger] old(index).tickets_map().contains_key(k)
                    ==> final(index).tickets_map()[k] == old(index).tickets_map()[k],
            final(index).last_id == old(index).last_id,
            final(index).version == old(index).version,
    {
        let summary = ticket.summary();
        index.record(ticket.id.clone(), summary);
        assert(index.tickets_map().dom() =~= old(index).tickets_map().dom().insert(ticket.id@));
    }

    /// The archive month of `ticket` and the index once it leaves the active tickets.
    pub fn archive_ticket(&self, ticket: &Ticket, index: &mut TicketIndex) -> (res: String)
        ensures
            res@ == ticket_archive_month(ticket.closed, ticket.updated@),
            final(index).tickets_map() == old(index).tickets_map().remove(ticket.id@),
            final(index).last_id == old(index).last_id,
            final(index).version == old(index).version,
    {
        index.forget(&ticket.id);
        archive_month_for_ticket(ticket)
    }

    /// Moves `ticket` to `patch.status`. A done ticket leaves the index and is
    /// archived under its month; any other stays active with a fresh summary.
    pub fn update_status(&self, ticket: Ticket, patch: StatusPatch, index: TicketIndex) -> (res: Result<
        StatusChange,
        TicketFlowError,
    >)
        ensures
            status_refusal(ticket, patch) matches Some(e) ==> res == Err::<StatusChange, TicketFlowError>(e),
            status_refusal(ticket, patch) is None ==> (res matches Ok(c) && {
                &&& status_applied(ticket, c.ticket, patch, c.ticket.updated)
                &&& is_event(
                    c.event,
                    ticket.id,
                    TICKET_STATUS_CHANGED@,
                    EventPayload::StatusChanged {
                        from: ticket.status,
                        to: patch.status,
                        note: patch.note,
                    },
                )
                &&& is_clock_text(c.ticket.updated@)
                &&& if patch.status == TicketStatus::Done {
                    &&& c.archive_month matches Some(m) && m@ == ticket_archive_month(
                        c.ticket.closed,
                        c.ticket.updated@,
                    )
                    &&& is_rfc3339_text(c.ticket.updated@) ==> (c.archive_month matches Some(m)
                        && m@ == c.ticket.updated@.subrange(0, 7) && is_archive_month_seq(m@))
                    &&& c.index.tickets_map() == index.tickets_map().remove(ticket.id@)
                } else {
                    &&& c.archive_month is None
                    &&& c.index.tickets_map().dom() == index.tickets_map().dom().insert(ticket.id@)
                    &&& is_summary_of(c.index.tickets_map()[ticket.id@], c.ticket)
                    &&& forall|k: Seq<char>|
                        k != ticket.id@ && #[trigger] index.tickets_map().contains_key(k)
                            ==> c.index.tickets_map()[k] == index.tickets_map()[k]
                }
                &&& c.index.last_id == index.last_id
            }),
    {
        let from = ticket.status;
        let to = patch.status;
        let id = ticket.id.clone();
        let note = clone_opt(&patch.note);
        let now = now_rfc3339();
        let ticket = apply_status(ticket, patch, now)?;
        let event = EventEnvelope::new(
            id,
            TICKET_STATUS_CHANGED,
            EventPayload::StatusChanged { from, to, note },
        );
        let mut index = index;
        if to == TicketStatus::Done {
            proof {
                lemma_clock_text_month(ticket.updated@);
            }
            let month = self.archive_ticket(&ticket, &mut index);
            Ok(StatusChange { ticket, event, index, archive_month: Some(month) })
        } else {
            self.commit_active(&ticket, &mut index);
            Ok(StatusChange { ticket, event, index, archive_month: None })
        }
    }
}

} // verus!
