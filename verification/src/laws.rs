//! Properties that hold across the operations of the library.
use vstd::prelude::*;

use crate::approval::{decision_name, ApprovalDecision};
use crate::clawhip::{is_success_status, send_outcome_holds, ClawhipSendMode, ClawhipSendResult};
use crate::error::TicketFlowError;
use crate::gates::{done_missing, has_evidence, next_action_type_of, ready_missing};
use crate::text::is_blank_seq;
use crate::checkpoint::{checkpoint_applied, checkpoint_notices, is_agent_action};
use crate::clawhip::{
    endpoint_of, event_path, kind_from_name, kind_name, strip_trailing_slashes, ClawhipEventKind,
};
use crate::model::{CheckpointPatch, CurrentState, NextAction};
use crate::context_pack::{audience_from_name, audience_name, ContextAudience};
use crate::input::decision_from_name;
use crate::model::{
    next_action_type_from_name, next_action_type_name, status_from_name, status_name,
    NextActionType, TicketStatus,
};
use crate::mutations::{link_kind_from_name, link_kind_name, LinkKind};
use crate::status::{may_transition, status_applied, status_refusal, StatusPatch};
use crate::store::{is_archive_month_seq, month_of_timestamp, ticket_archive_month};
use crate::text::has_suffix;
use crate::ticket::{Ticket, TicketSummary};
use crate::views::with_status;
use crate::clock::{calendar_text, rfc3339_date};
use crate::model::{id_text, is_ticket_id_seq, law_id_text_shape};
use crate::text::{all_digits, decimal, lemma_padded_digits, zero_pad};
use crate::checkpoint::checkpoint_ticket_applied;
use crate::clawhip::{is_projection, ClawhipTicketEvent};
use crate::views::{agent_tickets, is_agent_ticket};

verus! {

/// Every status reads back from its wire name.
pub proof fn law_status_name_round_trip(s: TicketStatus)
    ensures
        status_from_name(status_name(s)) == Some(s),
{
    reveal_strlit("open");
    reveal_strlit("doing");
    reveal_strlit("review");
    reveal_strlit("blocked");
    reveal_strlit("done");
    assert("open"@.len() == 4 && "done"@.len() == 4 && "open"@[0] != "done"@[0]);
    assert("doing"@.len() == 5 && "review"@.len() == 6 && "blocked"@.len() == 7);
}

/// Every next-action type reads back from its wire name.
pub proof fn law_next_action_type_name_round_trip(t: NextActionType)
    ensures
        next_action_type_from_name(next_action_type_name(t)) == Some(t),
{
    reveal_strlit("agent_action");
    reveal_strlit("owner_gate");
    reveal_strlit("release_gate");
    reveal_strlit("blocked");
    assert("agent_action"@.len() == 12 && "release_gate"@.len() == 12);
    assert("agent_action"@[0] != "release_gate"@[0]);
    assert("owner_gate"@.len() == 10 && "blocked"@.len() == 7);
}

/// Every link kind reads back from its wire name.
pub proof fn law_link_kind_name_round_trip(k: LinkKind)
    ensures
        link_kind_from_name(link_kind_name(k)) == Some(k),
{
    reveal_strlit("github_issues");
    reveal_strlit("prs");
    reveal_strlit("threads");
    reveal_strlit("cron_jobs");
    assert("github_issues"@.len() == 13 && "prs"@.len() == 3 && "threads"@.len() == 7);
    assert("cron_jobs"@.len() == 9);
}

/// Every clawhip event kind reads back from its wire name.
pub proof fn law_event_kind_name_round_trip(k: ClawhipEventKind)
    ensures
        kind_from_name(kind_name(k)) == Some(k),
{
    reveal_strlit("ticket.created");
    reveal_strlit("ticket.status_changed");
    reveal_strlit("ticket.checkpointed");
    reveal_strlit("ticket.agent_action_available");
    reveal_strlit("ticket.blocked");
    reveal_strlit("ticket.review_ready");
    let c = "ticket.created"@;
    let s = "ticket.status_changed"@;
    let p = "ticket.checkpointed"@;
    let a = "ticket.agent_action_available"@;
    let b = "ticket.blocked"@;
    let r = "ticket.review_ready"@;
    assert(c.len() == 14 && b.len() == 14 && c[7] != b[7]);
    assert(s.len() == 21 && p.len() == 19 && a.len() == 29 && r.len() == 19 && p[7] != r[7]);
}

/// Every context audience reads back from its wire name.
pub proof fn law_audience_name_round_trip(a: ContextAudience)
    ensures
        audience_from_name(audience_name(a)) == Some(a),
{
    reveal_strlit("agent_execution");
    reveal_strlit("owner_review");
    reveal_strlit("release_review");
    assert("agent_execution"@.len() == 15 && "owner_review"@.len() == 12);
    assert("release_review"@.len() == 14);
}

/// Every approval decision reads back from its wire name.
pub proof fn law_decision_name_round_trip(d: ApprovalDecision)
    ensures
        decision_from_name(decision_name(d)) == Some(d),
{
    reveal_strlit("approved");
    reveal_strlit("rejected");
    assert("approved"@.len() == 8 && "rejected"@.len() == 8 && "approved"@[0] != "rejected"@[0]);
}

/// A done ticket never changes status again.
pub proof fn law_done_is_final(to: TicketStatus)
    ensures
        !may_transition(TicketStatus::Done, to),
{
}

/// Only a ticket in review can be closed.
pub proof fn law_only_review_reaches_done(from: TicketStatus)
    ensures
        may_transition(from, TicketStatus::Done) <==> from == TicketStatus::Review,
{
}

/// A status change is accepted exactly when the workflow allows it and, for
/// review, an artifact is given or already present.
pub proof fn law_status_change_acceptance(ticket: Ticket, patch: StatusPatch)
    ensures
        status_refusal(ticket, patch) is None <==> (may_transition(ticket.status, patch.status)
            && (patch.status == TicketStatus::Review ==> (patch.artifact is Some
            || ticket.artifacts@.len() > 0))),
{
}

/// A ticket that enters review holds at least one artifact.
pub proof fn law_review_has_artifact(old: Ticket, new: Ticket, patch: StatusPatch, now: String)
    requires
        status_refusal(old, patch) is None,
        status_applied(old, new, patch, now),
        patch.status == TicketStatus::Review,
    ensures
        new.artifacts@.len() > 0,
{
}

/// A status change keeps every artifact and log entry the ticket had, and
/// adds exactly one log entry.
pub proof fn law_status_change_keeps_history(old: Ticket, new: Ticket, patch: StatusPatch, now: String)
    requires
        status_applied(old, new, patch, now),
    ensures
        new.artifacts@.subrange(0, old.artifacts@.len() as int) == old.artifacts@,
        new.log@.len() == old.log@.len() + 1,
        new.log@.subrange(0, old.log@.len() as int) == old.log@,
{
    assert(new.log@.subrange(0, old.log@.len() as int) =~= new.log@.drop_last());
}

/// The archive month of a ticket is a `YYYY-MM` month or `unknown`.
pub proof fn law_archive_month_shape(closed: Option<String>, updated: Seq<char>)
    ensures
        is_archive_month_seq(ticket_archive_month(closed, updated)) || ticket_archive_month(
            closed,
            updated,
        ) == "unknown"@,
{
    match closed {
        Some(c) => {
            if let Some(m) = month_of_timestamp(c@) {
            }
        },
        None => {},
    }
}

/// The event endpoint always ends with `/event`.
pub proof fn law_endpoint_ends_with_event(base: Seq<char>)
    ensures
        has_suffix(endpoint_of(base), event_path()),
{
    let t = strip_trailing_slashes(base);
    if !has_suffix(t, event_path()) {
        let e = t + event_path();
        assert(e.subrange(e.len() - 6, e.len() as int) =~= event_path());
    }
}

proof fn lemma_status_columns(ts: Seq<Ticket>)
    ensures
        with_status(ts, TicketStatus::Open).len() + with_status(ts, TicketStatus::Doing).len()
            + with_status(ts, TicketStatus::Review).len() + with_status(
            ts,
            TicketStatus::Blocked,
        ).len() + with_status(ts, TicketStatus::Done).len() == ts.len(),
    decreases ts.len(),
{
    if ts.len() > 0 {
        let init = ts.drop_last();
        let t = ts.last();
        lemma_status_columns(init);
        assert(ts =~= init.push(t));
        init.lemma_filter_push(t, |x: Ticket| x.status == TicketStatus::Open);
        init.lemma_filter_push(t, |x: Ticket| x.status == TicketStatus::Doing);
        init.lemma_filter_push(t, |x: Ticket| x.status == TicketStatus::Review);
        init.lemma_filter_push(t, |x: Ticket| x.status == TicketStatus::Blocked);
        init.lemma_filter_push(t, |x: Ticket| x.status == TicketStatus::Done);
    }
}

/// Every ticket has exactly one status: the status groups of a list of
/// tickets (the four board columns and the done tickets) add up to the list.
pub proof fn law_status_groups_partition(ts: Seq<Ticket>)
    ensures
        with_status(ts, TicketStatus::Open).len() + with_status(ts, TicketStatus::Doing).len()
            + with_status(ts, TicketStatus::Review).len() + with_status(
            ts,
            TicketStatus::Blocked,
        ).len() + with_status(ts, TicketStatus::Done).len() == ts.len(),
{
    lemma_status_columns(ts);
}

/// A checkpoint always announces `ticket.checkpointed` first, never
/// `ticket.review_ready`, and `ticket.blocked` exactly when the ticket ends
/// blocked.
pub proof fn law_checkpoint_announcements(action: Option<NextAction>, status: TicketStatus)
    ensures
        checkpoint_notices(action, status)[0] == ClawhipEventKind::Checkpointed,
        !checkpoint_notices(action, status).contains(ClawhipEventKind::ReviewReady),
        checkpoint_notices(action, status).contains(ClawhipEventKind::Blocked) <==> status
            == TicketStatus::Blocked,
        checkpoint_notices(action, status).contains(ClawhipEventKind::AgentActionAvailable)
            <==> is_agent_action(action),
{
    let n = checkpoint_notices(action, status);
    if n.contains(ClawhipEventKind::ReviewReady) {
        let i = choose|i: int| 0 <= i < n.len() && n[i] == ClawhipEventKind::ReviewReady;
        assert(false);
    }
    if status == TicketStatus::Blocked {
        assert(n[n.len() - 1] == ClawhipEventKind::Blocked);
    }
    if n.contains(ClawhipEventKind::Blocked) {
        let i = choose|i: int| 0 <= i < n.len() && n[i] == ClawhipEventKind::Blocked;
    }
    if is_agent_action(action) {
        assert(n[1] == ClawhipEventKind::AgentActionAvailable);
    }
    if n.contains(ClawhipEventKind::AgentActionAvailable) {
        let i = choose|i: int| 0 <= i < n.len() && n[i] == ClawhipEventKind::AgentActionAvailable;
    }
}

/// A checkpoint is a partial update: every field it leaves unset keeps its
/// value, and every field it sets takes the new one.
pub proof fn law_checkpoint_is_partial_update(
    old: CurrentState,
    new: CurrentState,
    patch: CheckpointPatch,
)
    requires
        checkpoint_applied(old, new, patch),
    ensures
        patch.phase is None ==> new.phase == old.phase,
        patch.phase is Some ==> new.phase == patch.phase,
        patch.decision is None ==> new.decision == old.decision,
        patch.decision is Some ==> new.decision == patch.decision,
        patch.evidence is None ==> new.evidence == old.evidence,
        patch.evidence is Some ==> new.evidence == patch.evidence,
        patch.blocker is None ==> new.blocker == old.blocker,
        patch.blocker is Some ==> new.blocker == patch.blocker,
        patch.next is None ==> new.next == old.next,
        patch.next is Some ==> new.next == patch.next,
        patch.note is None ==> new.note == old.note,
        patch.note is Some ==> new.note == patch.note,
        patch.next_action_type is None && patch.next_command is None && patch.next_owner is None
            ==> new.next_action == old.next_action,
        patch.next_action_type is Some ==> (new.next_action matches Some(a) && a.action_type
            == patch.next_action_type),
        new.extra == old.extra,
{
}

/// A ticket passes the ready gate exactly when it has a goal, acceptance
/// criteria and a typed next action.
pub proof fn law_ready_gate_meaning(t: Ticket)
    ensures
        ready_missing(t).len() == 0 <==> (!is_blank_seq(t.goal@) && t.acceptance@.len() > 0
            && next_action_type_of(t) is Some),
{
}

/// A ticket passes the done gate exactly when it has acceptance criteria and
/// evidence.
pub proof fn law_done_gate_meaning(t: Ticket)
    ensures
        done_missing(t).len() == 0 <==> (t.acceptance@.len() > 0 && has_evidence(t)),
{
}

/// Forgetting an identifier that was just recorded, and that the index did not
/// hold before, gives the index back; recording twice keeps the later summary.
pub proof fn law_index_record_forget(
    before: Map<Seq<char>, TicketSummary>,
    id: Seq<char>,
    first: TicketSummary,
    second: TicketSummary,
)
    ensures
        !before.contains_key(id) ==> before.insert(id, first).remove(id) == before,
        before.insert(id, first).insert(id, second) == before.insert(id, second),
        before.insert(id, first)[id] == first,
        !before.insert(id, first).remove(id).contains_key(id),
{
    assert(before.insert(id, first).insert(id, second) =~= before.insert(id, second));
    if !before.contains_key(id) {
        assert(before.insert(id, first).remove(id) =~= before);
    }
}

/// Best-effort delivery never fails: whatever the daemon answers, or when it
/// cannot be reached, the outcome is a result and not an error, and it counts
/// as delivered exactly when the daemon answered.
pub proof fn law_best_effort_never_fails(reply: Result<u16, String>, res: Result<ClawhipSendResult, TicketFlowError>)
    requires
        send_outcome_holds(ClawhipSendMode::BestEffort, reply, res),
    ensures
        res is Ok,
        res matches Ok(r) ==> (r.ok <==> reply is Ok),
{
}

/// Strict delivery fails exactly when the daemon cannot be reached or answers
/// with a status outside 2xx.
pub proof fn law_strict_fails_on_any_failure(reply: Result<u16, String>, res: Result<ClawhipSendResult, TicketFlowError>)
    requires
        send_outcome_holds(ClawhipSendMode::Strict, reply, res),
    ensures
        res is Err <==> !(reply matches Ok(code) && is_success_status(code)),
{
}

/// For a clock reading of a year from 0 to 9999, the `YYYYMMDD` day text is
/// the `YYYY-MM-DD` date of its RFC 3339 form with the two `-` removed, and
/// every sequence number up to 999 on that day gives a valid identifier.
pub proof fn law_day_text_is_rfc3339_date(year: nat, month: nat, day: nat)
    requires
        year <= 9999,
        1 <= month <= 12,
        1 <= day <= 31,
    ensures
        ({
            let date = rfc3339_date(year, month, day);
            calendar_text(year as int, month, day) == date.subrange(0, 4) + date.subrange(5, 7)
                + date.subrange(8, 10)
        }),
        calendar_text(year as int, month, day).len() == 8,
        all_digits(calendar_text(year as int, month, day)),
        forall|n: nat|
            n <= 999 ==> is_ticket_id_seq(#[trigger] id_text(calendar_text(year as int, month, day), n)),
{
    lemma_padded_digits(year, 4);
    lemma_padded_digits(month, 2);
    lemma_padded_digits(day, 2);
    let a = zero_pad(decimal(year), 4);
    let b = zero_pad(decimal(month), 2);
    let c = zero_pad(decimal(day), 2);
    let date = rfc3339_date(year, month, day);
    assert(date == a + seq!['-'] + b + seq!['-'] + c);
    assert(date.subrange(0, 4) =~= a);
    assert(date.subrange(5, 7) =~= b);
    assert(date.subrange(8, 10) =~= c);
    let t = calendar_text(year as int, month, day);
    assert(t == a + b + c);
    assert forall|i: int| 0 <= i < 8 implies crate::text::is_digit_char(#[trigger] t[i]) by {
        if i < 4 {
            assert(t[i] == a[i]);
        } else if i < 6 {
            assert(t[i] == b[i - 4]);
        } else {
            assert(t[i] == c[i - 6]);
        }
    }
    assert forall|n: nat| n <= 999 implies is_ticket_id_seq(#[trigger] id_text(t, n)) by {
        law_id_text_shape(t, n);
    }
}

/// The workflow table: the only allowed moves are open to doing or blocked,
/// doing to review, blocked or open, review to done or open, and blocked to
/// doing or open; nothing leaves done and no status moves to itself.
pub proof fn law_workflow_table(from: TicketStatus, to: TicketStatus)
    ensures
        may_transition(from, to) <==> {
            ||| (from, to) == (TicketStatus::Open, TicketStatus::Doing)
            ||| (from, to) == (TicketStatus::Open, TicketStatus::Blocked)
            ||| (from, to) == (TicketStatus::Doing, TicketStatus::Review)
            ||| (from, to) == (TicketStatus::Doing, TicketStatus::Blocked)
            ||| (from, to) == (TicketStatus::Doing, TicketStatus::Open)
            ||| (from, to) == (TicketStatus::Review, TicketStatus::Done)
            ||| (from, to) == (TicketStatus::Review, TicketStatus::Open)
            ||| (from, to) == (TicketStatus::Blocked, TicketStatus::Doing)
            ||| (from, to) == (TicketStatus::Blocked, TicketStatus::Open)
        },
{
}

/// A status change to anything but review is refused exactly when the move
/// is outside the workflow table, and then with `InvalidTransition` naming
/// both statuses; so a blocked ticket may resume work (move to doing).
pub proof fn law_status_refusal_follows_table(ticket: Ticket, patch: StatusPatch)
    requires
        patch.status != TicketStatus::Review,
    ensures
        ticket.status == TicketStatus::Blocked && patch.status == TicketStatus::Doing
            ==> status_refusal(ticket, patch) is None,
        status_refusal(ticket, patch) is Some <==> !({
            ||| (ticket.status, patch.status) == (TicketStatus::Open, TicketStatus::Doing)
            ||| (ticket.status, patch.status) == (TicketStatus::Open, TicketStatus::Blocked)
            ||| (ticket.status, patch.status) == (TicketStatus::Doing, TicketStatus::Blocked)
            ||| (ticket.status, patch.status) == (TicketStatus::Doing, TicketStatus::Open)
            ||| (ticket.status, patch.status) == (TicketStatus::Review, TicketStatus::Done)
            ||| (ticket.status, patch.status) == (TicketStatus::Review, TicketStatus::Open)
            ||| (ticket.status, patch.status) == (TicketStatus::Blocked, TicketStatus::Doing)
            ||| (ticket.status, patch.status) == (TicketStatus::Blocked, TicketStatus::Open)
        }),
        status_refusal(ticket, patch) matches Some(e) ==> (e == TicketFlowError::InvalidTransition {
            from: ticket.status,
            to: patch.status,
        }),
{
}

/// A checkpoint that names a blocker or a next action of type `blocked`
/// leaves the ticket blocked and announces `ticket.blocked` last; any other
/// checkpoint keeps the ticket's status.
pub proof fn law_checkpoint_blocking(old: Ticket, new: Ticket, patch: CheckpointPatch, now: String)
    requires
        checkpoint_ticket_applied(old, new, patch, now),
    ensures
        patch.next_action_type == Some(NextActionType::Blocked) ==> new.status
            == TicketStatus::Blocked,
        patch.blocker is Some ==> new.status == TicketStatus::Blocked,
        patch.blocker is None && patch.next_action_type != Some(NextActionType::Blocked)
            ==> new.status == old.status,
        (patch.blocker is Some || patch.next_action_type == Some(NextActionType::Blocked)) ==> ({
            let n = checkpoint_notices(new.current->0.next_action, new.status);
            n.last() == ClawhipEventKind::Blocked && n.contains(ClawhipEventKind::Blocked)
        }),
{
    let n = checkpoint_notices(new.current->0.next_action, new.status);
    if new.status == TicketStatus::Blocked {
        assert(n[n.len() - 1] == ClawhipEventKind::Blocked);
    }
}

/// A ticket with acceptance criteria and at least one artifact passes the
/// done gate, whatever its evidence section says; without acceptance criteria
/// it never passes.
pub proof fn law_done_gate_artifacts_suffice(t: Ticket)
    ensures
        t.acceptance@.len() > 0 && t.artifacts@.len() > 0 ==> done_missing(t).len() == 0,
        t.artifacts@.len() > 0 ==> has_evidence(t),
        t.acceptance@.len() == 0 ==> done_missing(t).len() > 0,
{
}

/// Every ticket in the agent queue waits on an agent: its current next action
/// has the type `agent_action`; every such ticket of the list is queued, and
/// a ticket whose next action has another type, or none, is left out.
pub proof fn law_agent_queue_only_agent_actions(ts: Seq<Ticket>)
    ensures
        forall|i: int|
            0 <= i < agent_tickets(ts).len() ==> next_action_type_of(#[trigger] agent_tickets(ts)[i])
                == Some(NextActionType::AgentAction),
        forall|t: Ticket|
            #[trigger] agent_tickets(ts).contains(t) ==> ts.contains(t) && next_action_type_of(t)
                == Some(NextActionType::AgentAction),
        forall|t: Ticket|
            next_action_type_of(t) != Some(NextActionType::AgentAction) ==> !#[trigger] agent_tickets(
                ts,
            ).contains(t),
        forall|i: int|
            0 <= i < ts.len() && next_action_type_of(ts[i]) == Some(NextActionType::AgentAction)
                ==> agent_tickets(ts).contains(#[trigger] ts[i]),
        agent_tickets(ts).len() <= ts.len(),
{
    broadcast use vstd::seq_lib::group_filter_ensures;

    assert forall|t: Ticket| #[trigger] agent_tickets(ts).contains(t) implies ts.contains(t)
        && next_action_type_of(t) == Some(NextActionType::AgentAction) by {
        let k = choose|k: int| 0 <= k < agent_tickets(ts).len() && agent_tickets(ts)[k] == t;
        assert(agent_tickets(ts)[k] == t);
        ts.lemma_filter_contains_rev(|x: Ticket| is_agent_ticket(x), t);
    }
}

/// The clawhip payload carries the status change it was given, unchanged and
/// in order: `from_status` is the status left, `to_status` the one entered.
pub proof fn law_projection_keeps_status_change(
    ev: ClawhipTicketEvent,
    kind: ClawhipEventKind,
    t: Ticket,
    repo_path: Option<Seq<char>>,
    worktree_path: Option<Seq<char>>,
    from_status: Option<TicketStatus>,
    to_status: Option<TicketStatus>,
    correlation_id: Option<Seq<char>>,
)
    requires
        is_projection(ev, kind, t, repo_path, worktree_path, from_status, to_status, correlation_id),
    ensures
        ev.payload.from_status == from_status,
        ev.payload.to_status == to_status,
        ev.payload.status == t.status,
{
}

} // verus!
