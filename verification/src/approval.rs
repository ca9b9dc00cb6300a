//! Approval requests and responses.
use vstd::prelude::*;

use crate::clock::{is_clock_text, now_rfc3339};
use crate::error::TicketFlowError;
use crate::event::{
    is_hyphenated_uuid, new_uuid_text, EventEnvelope, EventPayload, TICKET_APPROVAL_REQUESTED,
    TICKET_APPROVAL_RESPONDED, is_event,
};
use crate::model::{clone_opt, ApprovalRecord, CoordinationSection};
use crate::mutations::TicketChange;
use crate::text::{join2, owned};
use crate::ticket::{same_identity, Ticket};

verus! {

/// A question for the owner of a ticket.
#[derive(Debug)]
pub struct ApprovalRequest {
    pub owner: String,
    pub question: String,
}

/// The owner's answer.
#[derive(Debug, Clone, Copy, PartialEq, Eq, Structural)]
pub enum ApprovalDecision {
    Approved,
    Rejected,
}

/// The wire name of a decision.
pub open spec fn decision_name(d: ApprovalDecision) -> Seq<char> {
    match d {
        ApprovalDecision::Approved => "approved"@,
        ApprovalDecision::Rejected => "rejected"@,
    }
}

impl ApprovalDecision {
    /// The wire name of this decision.
    pub fn as_str(&self) -> (res: &'static str)
        ensures
            res@ == decision_name(*self),
    {
        match self {
            ApprovalDecision::Approved => "approved",
            ApprovalDecision::Rejected => "rejected",
        }
    }
}

impl Clone for ApprovalRecord {
    fn clone(&self) -> (res: Self)
        ensures
            res == *self,
    {
        ApprovalRecord {
            id: self.id.clone(),
            owner: self.owner.clone(),
            question: self.question.clone(),
            status: self.status.clone(),
            requested_at: self.requested_at.clone(),
            outcome: clone_opt(&self.outcome),
            responded_at: clone_opt(&self.responded_at),
        }
    }
}

/// The approvals of a coordination section, or none.
pub open spec fn approvals_of(c: Option<CoordinationSection>) -> Seq<ApprovalRecord> {
    match c {
        Some(s) => s.approvals@,
        None => Seq::empty(),
    }
}

/// Whether `new` keeps the owners, handoffs, blockers and extra members of `old`
/// (a missing section counting as an empty one).
pub open spec fn coordination_kept(old: Option<CoordinationSection>, new: CoordinationSection) -> bool {
    match old {
        Some(o) => new.owners == o.owners && new.handoffs == o.handoffs && new.blockers
            == o.blockers && new.extra == o.extra,
        None => new.owners@.len() == 0 && new.handoffs@.len() == 0 && new.blockers@.len() == 0
            && new.extra@.len() == 0,
    }
}

/// Whether `new` is `old` with only its coordination section and `updated` changed.
pub open spec fn only_coordination_changed(old: Ticket, new: Ticket) -> bool {
    &&& same_identity(old, new)
    &&& new.status == old.status
    &&& new.artifacts == old.artifacts
    &&& new.links == old.links
    &&& new.closed == old.closed
    &&& new.log == old.log
    &&& new.current == old.current
    &&& new.evidence == old.evidence
}

/// Whether `r` is a fresh request from `input`: identifier `A-<uuid>`,
/// status `requested`, requested at a clock timestamp, no outcome yet.
pub open spec fn is_new_approval(r: ApprovalRecord, input: ApprovalRequest) -> bool {
    &&& r.id@.len() == 38
    &&& r.id@.subrange(0, 2) == "A-"@
    &&& is_hyphenated_uuid(r.id@.subrange(2, 38))
    &&& r.owner == input.owner
    &&& r.question == input.question
    &&& r.status@ == "requested"@
    &&& is_clock_text(r.requested_at@)
    &&& r.outcome is None
    &&& r.responded_at is None
}

/// Records an approval request on `ticket`.
pub fn request_approval(ticket: Ticket, input: ApprovalRequest) -> (res: TicketChange)
    ensures
        is_clock_text(res.ticket.updated@),
        only_coordination_changed(ticket, res.ticket),
        res.ticket.coordination matches Some(c) && {
            &&& coordination_kept(ticket.coordination, c)
            &&& c.approvals@.len() == approvals_of(ticket.coordination).len() + 1
            &&& c.approvals@.drop_last() == approvals_of(ticket.coordination)
            &&& is_new_approval(c.approvals@.last(), input)
            &&& is_event(
                res.event,
                ticket.id,
                TICKET_APPROVAL_REQUESTED@,
                EventPayload::ApprovalRequested(c.approvals@.last()),
            )
        },
{
    let mut ticket = ticket;
    let uuid = new_uuid_text();
    let id = join2("A-", uuid.as_str());
    proof {
        reveal_strlit("A-");
        assert(id@.subrange(0, 2) =~= "A-"@);
        assert(id@.subrange(2, 38) =~= uuid@);
    }
    let approval = ApprovalRecord {
        id,
        owner: input.owner,
        question: input.question,
        status: owned("requested"),
        requested_at: now_rfc3339(),
        outcome: None,
        responded_at: None,
    };
    let mut coordination = match ticket.coordination {
        Some(c) => c,
        None => CoordinationSection::empty(),
    };
    let ghost before = coordination.approvals@;
    coordination.approvals.push(approval.clone());
    assert(coordination.approvals@.drop_last() =~= before);
    ticket.coordination = Some(coordination);
    ticket.updated = now_rfc3339();
    let event = EventEnvelope::new(
        ticket.id.clone(),
        TICKET_APPROVAL_REQUESTED,
        EventPayload::ApprovalRequested(approval),
    );
    TicketChange { ticket, event }
}

/// Whether `new` is the approval `old` answered with `decision` at a clock
/// timestamp.
pub open spec fn is_responded(old: ApprovalRecord, new: ApprovalRecord, decision: ApprovalDecision) -> bool {
    &&& new.id == old.id
    &&& new.owner == old.owner
    &&& new.question == old.question
    &&& new.requested_at == old.requested_at
    &&& new.status@ == "responded"@
    &&& new.outcome matches Some(o) && o@ == decision_name(decision)
    &&& new.responded_at matches Some(t) && is_clock_text(t@)
}

/// Whether some approval in `v` has identifier `id`.
pub open spec fn has_approval(v: Seq<ApprovalRecord>, id: Seq<char>) -> bool {
    exists|i: int| 0 <= i < v.len() && v[i].id@ == id
}

/// Answers every approval of `ticket` whose identifier is `approval_id`; an
/// identifier that matches none is refused.
pub fn respond_approval(ticket: Ticket, approval_id: &str, decision: ApprovalDecision) -> (res:
    Result<TicketChange, TicketFlowError>)
    ensures
        res matches Ok(c) ==> is_clock_text(c.ticket.updated@),
        !has_approval(approvals_of(ticket.coordination), approval_id@) ==> (res matches Err(e) && (
        e matches TicketFlowError::ApprovalNotFound(s) && s@ == approval_id@)),
        has_approval(approvals_of(ticket.coordination), approval_id@) ==> (res matches Ok(c) && {
            &&& only_coordination_changed(ticket, c.ticket)
            &&& c.ticket.coordination matches Some(s) && {
                let old_list = approvals_of(ticket.coordination);
                &&& coordination_kept(ticket.coordination, s)
                &&& s.approvals@.len() == old_list.len()
                &&& forall|i: int|
                    0 <= i < old_list.len() ==> if old_list[i].id@ == approval_id@ {
                        is_responded(old_list[i], #[trigger] s.approvals@[i], decision)
                    } else {
                        s.approvals@[i] == old_list[i]
                    }
            }
            &&& is_event(
                c.event,
                ticket.id,
                TICKET_APPROVAL_RESPONDED@,
                EventPayload::ApprovalResponded {
                    approval_id: c.event.payload->ApprovalResponded_approval_id,
                    outcome: c.event.payload->ApprovalResponded_outcome,
                },
            )
            &&& c.event.payload->ApprovalResponded_approval_id@ == approval_id@
            &&& c.event.payload->ApprovalResponded_outcome@ == decision_name(decision)
        }),
{
    let mut ticket = ticket;
    let mut coordination = match ticket.coordination {
        Some(c) => c,
        None => CoordinationSection::empty(),
    };
    let ghost old_list = coordination.approvals@;
    let ghost start = coordination;
    let mut found = false;
    let mut i: usize = 0;
    while i < coordination.approvals.len()
        invariant
            i <= coordination.approvals@.len(),
            coordination.approvals@.len() == old_list.len(),
            forall|j: int|
                i <= j < old_list.len() ==> coordination.approvals@[j] == old_list[j],
            forall|j: int|
                0 <= j < i ==> if old_list[j].id@ == approval_id@ {
                    is_responded(old_list[j], #[trigger] coordination.approvals@[j], decision)
                } else {
                    coordination.approvals@[j] == old_list[j]
                },
            found <==> exists|j: int| 0 <= j < i && old_list[j].id@ == approval_id@,
            coordination.owners == start.owners,
            coordination.handoffs == start.handoffs,
            coordination.blockers == start.blockers,
            coordination.extra == start.extra,
        decreases old_list.len() - i,
    {
        if crate::text::str_eq(coordination.approvals[i].id.as_str(), approval_id) {
            let r = &coordination.approvals[i];
            let updated = ApprovalRecord {
                id: r.id.clone(),
                owner: r.owner.clone(),
                question: r.question.clone(),
                status: owned("responded"),
                requested_at: r.requested_at.clone(),
                outcome: Some(owned(decision.as_str())),
                responded_at: Some(now_rfc3339()),
            };
            coordination.approvals.set(i, updated);
            found = true;
        }
        i = i + 1;
    }
    if !found {
        return Err(TicketFlowError::ApprovalNotFound(owned(approval_id)));
    }
    ticket.coordination = Some(coordination);
    ticket.updated = now_rfc3339();
    let event = EventEnvelope::new(
        ticket.id.clone(),
        TICKET_APPROVAL_RESPONDED,
        EventPayload::ApprovalResponded {
            approval_id: owned(approval_id),
            outcome: owned(decision.as_str()),
        },
    );
    Ok(TicketChange { ticket, event })
}

} // verus!
