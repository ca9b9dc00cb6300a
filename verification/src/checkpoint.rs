//! Checkpoints: what a ticket is doing now, and what happens next.
use vstd::prelude::*;

use crate::clawhip::ClawhipEventKind;
use crate::clock::{is_clock_text, now_rfc3339};
use crate::error::TicketFlowError;
use crate::event::{
    EventEnvelope, EventPayload, TICKET_AGENT_ACTION_AVAILABLE, TICKET_CHECKPOINTED, is_event,
};
use crate::model::{
    clone_next_action, clone_opt, patch_is_empty, CheckpointPatch, CurrentState, LogEntry,
    NextAction, NextActionType, TicketId, TicketStatus,
};
use crate::store::TicketStore;
use crate::text::owned;
use crate::ticket::{is_summary_of, same_identity, Ticket, TicketIndex};

verus! {

/// `new` when it is set, else `old`.
pub open spec fn overwrite<T>(old: Option<T>, new: Option<T>) -> Option<T> {
    if new is Some {
        new
    } else {
        old
    }
}

/// The next action after a checkpoint: the previous one (or an empty one),
/// with each of type, command and owner replaced when the patch sets it.
pub open spec fn merged_next_action(old: Option<NextAction>, patch: CheckpointPatch) -> NextAction {
    let base = match old {
        Some(a) => a,
        None => NextAction { action_type: None, command: None, owner: None },
    };
    NextAction {
        action_type: overwrite(base.action_type, patch.next_action_type),
        command: overwrite(base.command, patch.next_command),
        owner: overwrite(base.owner, patch.next_owner),
    }
}

/// Whether a next action sets any field.
pub open spec fn action_has_fields(a: NextAction) -> bool {
    a.action_type is Some || a.command is Some || a.owner is Some
}

/// Whether `new` is the current state `old` after `patch`: each field the patch
/// sets is replaced, and the next action is the merged one when it sets any
/// field (else it stays as it was).
pub open spec fn checkpoint_applied(old: CurrentState, new: CurrentState, patch: CheckpointPatch) -> bool {
    let merged = merged_next_action(old.next_action, patch);
    &&& new.phase == overwrite(old.phase, patch.phase)
    &&& new.decision == overwrite(old.decision, patch.decision)
    &&& new.evidence == overwrite(old.evidence, patch.evidence)
    &&& new.blocker == overwrite(old.blocker, patch.blocker)
    &&& new.next == overwrite(old.next, patch.next)
    &&& new.note == overwrite(old.note, patch.note)
    &&& new.next_action == if action_has_fields(merged) {
        Some(merged)
    } else {
        old.next_action
    }
    &&& new.extra == old.extra
}

fn overwrite_string(target: &mut Option<String>, value: &Option<String>)
    ensures
        *final(target) == overwrite(*old(target), *value),
{
    if let Some(v) = value {
        *target = Some(v.clone());
    }
}

/// Writes the fields that `patch` sets into `current`.
pub fn apply_checkpoint(current: &mut CurrentState, patch: &CheckpointPatch)
    ensures
        checkpoint_applied(*old(current), *final(current), *patch),
{
    overwrite_string(&mut current.phase, &patch.phase);
    overwrite_string(&mut current.decision, &patch.decision);
    overwrite_string(&mut current.evidence, &patch.evidence);
    overwrite_string(&mut current.blocker, &patch.blocker);
    overwrite_string(&mut current.next, &patch.next);
    overwrite_string(&mut current.note, &patch.note);
    let mut next_action = match &current.next_action {
        Some(a) => a.clone(),
        None => NextAction::empty(),
    };
    if let Some(value) = patch.next_action_type {
        next_action.action_type = Some(value);
    }
    overwrite_string(&mut next_action.command, &patch.next_command);
    overwrite_string(&mut next_action.owner, &patch.next_owner);
    if next_action.has_fields() {
        current.next_action = Some(next_action);
    }
}

/// Whether `e` is the log entry that records `patch` at `now`, with the
/// resulting `next_action`.
pub open spec fn is_checkpoint_log(
    e: LogEntry,
    patch: CheckpointPatch,
    next_action: Option<NextAction>,
    now: Seq<char>,
) -> bool {
    &&& e.ts@ == now
    &&& e.action matches Some(a) && a@ == "checkpoint"@
    &&& e.note == patch.note
    &&& e.phase == patch.phase
    &&& e.decision == patch.decision
    &&& e.evidence == patch.evidence
    &&& e.blocker == patch.blocker
    &&& e.next == patch.next
    &&& e.next_action == next_action
    &&& e.extra@.len() == 0
}

/// The log entry of a checkpoint.
pub fn checkpoint_log(patch: &CheckpointPatch, next_action: Option<NextAction>, now: &str) -> (res:
    LogEntry)
    ensures
        is_checkpoint_log(res, *patch, next_action, now@),
{
    LogEntry {
        ts: owned(now),
        action: Some(owned("checkpoint")),
        note: clone_opt(&patch.note),
        phase: clone_opt(&patch.phase),
        decision: clone_opt(&patch.decision),
        evidence: clone_opt(&patch.evidence),
        blocker: clone_opt(&patch.blocker),
        next: clone_opt(&patch.next),
        next_action,
        extra: Vec::new(),
    }
}

/// Whether a checkpoint blocks its ticket: it names a blocker, or a next
/// action of type `blocked`.
pub open spec fn patch_blocks(patch: CheckpointPatch) -> bool {
    patch.blocker is Some || patch.next_action_type == Some(NextActionType::Blocked)
}

/// Whether `new` is what a checkpoint `patch` makes of a ticket that had no
/// current state: exactly the fields the patch sets.
pub open spec fn checkpoint_applied_fresh(new: CurrentState, patch: CheckpointPatch) -> bool {
    let merged = merged_next_action(None, patch);
    &&& new.phase == patch.phase
    &&& new.decision == patch.decision
    &&& new.evidence == patch.evidence
    &&& new.blocker == patch.blocker
    &&& new.next == patch.next
    &&& new.note == patch.note
    &&& new.next_action == if action_has_fields(merged) {
        Some(merged)
    } else {
        None
    }
    &&& new.extra@.len() == 0
}

/// Whether `new` is `old` after the non-empty checkpoint `patch` at `now`.
pub open spec fn checkpoint_ticket_applied(
    old: Ticket,
    new: Ticket,
    patch: CheckpointPatch,
    now: String,
) -> bool {
    &&& same_identity(old, new)
    &&& new.current matches Some(c) && match old.current {
        Some(prev) => checkpoint_applied(prev, c, patch),
        None => checkpoint_applied_fresh(c, patch),
    }
    &&& new.log@.len() == old.log@.len() + 1
    &&& new.log@.drop_last() == old.log@
    &&& is_checkpoint_log(new.log@.last(), patch, new.current->0.next_action, now@)
    &&& new.updated == now
    &&& new.status == if patch_blocks(patch) {
        TicketStatus::Blocked
    } else {
        old.status
    }
    &&& new.artifacts == old.artifacts
    &&& new.links == old.links
    &&& new.closed == old.closed
    &&& new.coordination == old.coordination
    &&& new.evidence == old.evidence
}

/// What an accepted checkpoint writes and announces.
#[derive(Debug)]
pub struct CheckpointOutcome {
    pub ticket: Ticket,
    pub event: EventEnvelope,
    /// The `ticket.agent_action_available` event, when the next action is for an agent.
    pub agent_action_event: Option<EventEnvelope>,
    pub index: TicketIndex,
    /// The clawhip events to emit, in order.
    pub notices: Vec<ClawhipEventKind>,
}

/// The clawhip events a checkpoint announces, in order: `ticket.checkpointed`;
/// then `ticket.agent_action_available` when the next action is for an
/// agent; then `ticket.blocked` when the ticket ends blocked.
pub open spec fn checkpoint_notices(action: Option<NextAction>, status: TicketStatus) -> Seq<
    ClawhipEventKind,
> {
    seq![ClawhipEventKind::Checkpointed] + (if is_agent_action(action) {
        seq![ClawhipEventKind::AgentActionAvailable]
    } else {
        Seq::empty()
    }) + (if status == TicketStatus::Blocked {
        seq![ClawhipEventKind::Blocked]
    } else {
        Seq::empty()
    })
}

/// Whether the next action is for an agent.
pub open spec fn is_agent_action(a: Option<NextAction>) -> bool {
    a matches Some(x) && x.action_type == Some(NextActionType::AgentAction)
}

impl TicketStore {
    /// The `ticket.agent_action_available` event for ticket `id`, when its next
    /// action is for an agent; it carries the ticket's current next action.
    pub fn emit_agent_action_if_needed(
        &self,
        id: &TicketId,
        next_action: &Option<NextAction>,
        ticket: &Ticket,
    ) -> (res: Option<EventEnvelope>)
        ensures
            res is Some <==> is_agent_action(*next_action),
            res matches Some(e) ==> is_event(
                e,
                *id,
                TICKET_AGENT_ACTION_AVAILABLE@,
                EventPayload::AgentActionAvailable {
                    next_action: match ticket.current {
                        Some(c) => c.next_action,
                        None => None,
                    },
                },
            ),
    {
        let wanted = match next_action {
            Some(action) => action.action_type == Some(NextActionType::AgentAction),
            None => false,
        };
        if wanted {
            let current_action = match &ticket.current {
                Some(c) => clone_next_action(&c.next_action),
                None => None,
            };
            Some(
                EventEnvelope::new(
                    id.clone(),
                    TICKET_AGENT_ACTION_AVAILABLE,
                    EventPayload::AgentActionAvailable { next_action: current_action },
                ),
            )
        } else {
            None
        }
    }

    /// Records the checkpoint `patch` on `ticket`. An empty checkpoint is
    /// refused. A blocker, or a next action of type `blocked`, blocks the
    /// ticket. The announcements are `ticket.checkpointed`, then
    /// `ticket.agent_action_available` when the next action is for an agent,
    /// then `ticket.blocked` when the ticket is blocked.
    pub fn checkpoint_ticket(&self, ticket: Ticket, patch: CheckpointPatch, index: TicketIndex) -> (res:
        Result<CheckpointOutcome, TicketFlowError>)
        ensures
            res matches Ok(o) ==> is_clock_text(o.ticket.updated@),
            patch_is_empty(patch) ==> res matches Err(TicketFlowError::EmptyCheckpoint),
            !patch_is_empty(patch) && (patch.blocker is Some || patch.next_action_type == Some(
                NextActionType::Blocked,
            )) ==> (res matches Ok(o) && o.ticket.status == TicketStatus::Blocked
                && o.notices@.last() == ClawhipEventKind::Blocked),
            !patch_is_empty(patch) && patch.blocker is None && patch.next_action_type != Some(
                NextActionType::Blocked,
            ) ==> (res matches Ok(o) && o.ticket.status == ticket.status),
            !patch_is_empty(patch) ==> (res matches Ok(o) && {
                let action = o.ticket.current->0.next_action;
                &&& checkpoint_ticket_applied(ticket, o.ticket, patch, o.ticket.updated)
                &&& is_event(o.event, ticket.id, TICKET_CHECKPOINTED@, EventPayload::Checkpointed(patch))
                &&& o.agent_action_event is Some <==> is_agent_action(action)
                &&& o.agent_action_event matches Some(e) ==> is_event(
                    e,
                    ticket.id,
                    TICKET_AGENT_ACTION_AVAILABLE@,
                    EventPayload::AgentActionAvailable { next_action: action },
                )
                &&& o.index.tickets_map().dom() == index.tickets_map().dom().insert(ticket.id@)
                &&& is_summary_of(o.index.tickets_map()[ticket.id@], o.ticket)
                &&& forall|k: Seq<char>|
                    k != ticket.id@ && #[trigger] index.tickets_map().contains_key(k)
                        ==> o.index.tickets_map()[k] == index.tickets_map()[k]
                &&& o.index.last_id == index.last_id
                &&& o.notices@ == checkpoint_notices(action, o.ticket.status)
            }),
    {
        if patch.is_empty() {
            return Err(TicketFlowError::EmptyCheckpoint);
        }
        let ghost old_ticket = ticket;
        let mut ticket = ticket;
        let now = now_rfc3339();
        let mut current = match ticket.current {
            Some(c) => c,
            None => CurrentState::empty(),
        };
        apply_checkpoint(&mut current, &patch);
        let next_action = clone_next_action(&current.next_action);
        ticket.current = Some(current);
        let ghost mid_log = ticket.log@;
        ticket.log.push(checkpoint_log(&patch, clone_next_action(&next_action), now.as_str()));
        assert(ticket.log@.drop_last() =~= mid_log);
        ticket.updated = now;
        if patch.blocker.is_some() || patch.next_action_type == Some(NextActionType::Blocked) {
            ticket.status = TicketStatus::Blocked;
        }
        let id = ticket.id.clone();
        let blocked = ticket.status == TicketStatus::Blocked;
        let event = EventEnvelope::new(id.clone(), TICKET_CHECKPOINTED, EventPayload::Checkpointed(patch));
        let mut index = index;
        self.commit_active(&ticket, &mut index);
        let agent_action_event = self.emit_agent_action_if_needed(&id, &next_action, &ticket);
        let mut notices: Vec<ClawhipEventKind> = Vec::new();
        notices.push(ClawhipEventKind::Checkpointed);
        if agent_action_event.is_some() {
            notices.push(ClawhipEventKind::AgentActionAvailable);
        }
        if blocked {
            notices.push(ClawhipEventKind::Blocked);
        }
        proof {
            let action = ticket.current->0.next_action;
            assert(notices@ =~= checkpoint_notices(action, ticket.status));
        }
        Ok(CheckpointOutcome { ticket, event, agent_action_event, index, notices })
    }
}

} // verus!
