//! Handoffs of a ticket from one owner to another.
use vstd::prelude::*;

use crate::approval::only_coordination_changed;
use crate::clock::{is_clock_text, now_rfc3339};
use crate::error::TicketFlowError;
use crate::event::{
    is_hyphenated_uuid, new_uuid_text, EventEnvelope, EventPayload, TICKET_HANDOFF_ACKED,
    TICKET_HANDOFF_REQUESTED, is_event,
};
use crate::model::{clone_opt, CoordinationSection, HandoffRecord};
use crate::mutations::TicketChange;
use crate::text::{join2, owned};
use crate::ticket::Ticket;

verus! {

/// A request to hand a ticket from `from` to `to`.
#[derive(Debug)]
pub struct HandoffRequest {
    pub from: String,
    pub to: String,
    pub reason: String,
}

/// The acknowledgement of a handoff.
#[derive(Debug)]
pub struct HandoffAck {
    pub handoff_id: String,
}

impl Clone for HandoffRecord {
    fn clone(&self) -> (res: Self)
        ensures
            res == *self,
    {
        HandoffRecord {
            id: self.id.clone(),
            from: self.from.clone(),
            to: self.to.clone(),
            reason: self.reason.clone(),
            status: self.status.clone(),
            requested_at: self.requested_at.clone(),
            acknowledged_at: clone_opt(&self.acknowledged_at),
        }
    }
}

/// The handoffs of a coordination section, or none.
pub open spec fn handoffs_of(c: Option<CoordinationSection>) -> Seq<HandoffRecord> {
    match c {
        Some(s) => s.handoffs@,
        None => Seq::empty(),
    }
}

/// Whether `new` keeps the owners, approvals, blockers and extra members of
/// `old` (a missing section counting as an empty one).
pub open spec fn coordination_kept_for_handoff(
    old: Option<CoordinationSection>,
    new: CoordinationSection,
) -> bool {
    match old {
        Some(o) => new.owners == o.owners && new.approvals == o.approvals && new.blockers
            == o.blockers && new.extra == o.extra,
        None => new.owners@.len() == 0 && new.approvals@.len() == 0 && new.blockers@.len() == 0
            && new.extra@.len() == 0,
    }
}

/// Whether `r` is a fresh handoff from `input`: identifier `H-<uuid>`, status
/// `requested`, requested at a clock timestamp, not yet acknowledged.
pub open spec fn is_new_handoff(r: HandoffRecord, input: HandoffRequest) -> bool {
    &&& r.id@.len() == 38
    &&& r.id@.subrange(0, 2) == "H-"@
    &&& is_hyphenated_uuid(r.id@.subrange(2, 38))
    &&& r.from == input.from
    &&& r.to == input.to
    &&& r.reason == input.reason
    &&& r.status@ == "requested"@
    &&& is_clock_text(r.requested_at@)
    &&& r.acknowledged_at is None
}

/// Records a handoff request on `ticket`.
pub fn request_handoff(ticket: Ticket, input: HandoffRequest) -> (res: TicketChange)
    ensures
        is_clock_text(res.ticket.updated@),
        only_coordination_changed(ticket, res.ticket),
        res.ticket.coordination matches Some(c) && {
            &&& coordination_kept_for_handoff(ticket.coordination, c)
            &&& c.handoffs@.len() == handoffs_of(ticket.coordination).len() + 1
            &&& c.handoffs@.drop_last() == handoffs_of(ticket.coordination)
            &&& is_new_handoff(c.handoffs@.last(), input)
            &&& is_event(
                res.event,
                ticket.id,
                TICKET_HANDOFF_REQUESTED@,
                EventPayload::HandoffRequested(c.handoffs@.last()),
            )
        },
{
    let mut ticket = ticket;
    let uuid = new_uuid_text();
    let id = join2("H-", uuid.as_str());
    proof {
        reveal_strlit("H-");
        assert(id@.subrange(0, 2) =~= "H-"@);
        assert(id@.subrange(2, 38) =~= uuid@);
    }
    let handoff = HandoffRecord {
        id,
        from: input.from,
        to: input.to,
        reason: input.reason,
        status: owned("requested"),
        requested_at: now_rfc3339(),
        acknowledged_at: None,
    };
    let mut coordination = match ticket.coordination {
        Some(c) => c,
        None => CoordinationSection::empty(),
    };
    let ghost before = coordination.handoffs@;
    coordination.handoffs.push(handoff.clone());
    assert(coordination.handoffs@.drop_last() =~= before);
    ticket.coordination = Some(coordination);
    ticket.updated = now_rfc3339();
    let event = EventEnvelope::new(
        ticket.id.clone(),
        TICKET_HANDOFF_REQUESTED,
        EventPayload::HandoffRequested(handoff),
    );
    TicketChange { ticket, event }
}

/// Whether `new` is the handoff `old` acknowledged at a clock timestamp.
pub open spec fn is_acknowledged(old: HandoffRecord, new: HandoffRecord) -> bool {
    &&& new.id == old.id
    &&& new.from == old.from
    &&& new.to == old.to
    &&& new.reason == old.reason
    &&& new.requested_at == old.requested_at
    &&& new.status@ == "acknowledged"@
    &&& new.acknowledged_at matches Some(t) && is_clock_text(t@)
}

/// Whether some handoff in `v` has identifier `id`.
pub open spec fn has_handoff(v: Seq<HandoffRecord>, id: Seq<char>) -> bool {
    exists|i: int| 0 <= i < v.len() && v[i].id@ == id
}

/// Acknowledges every handoff of `ticket` whose identifier is
/// `input.handoff_id`; an identifier that matches none is refused.
pub fn ack_handoff(ticket: Ticket, input: HandoffAck) -> (res: Result<TicketChange, TicketFlowError>)
    ensures
        res matches Ok(c) ==> is_clock_text(c.ticket.updated@),
        !has_handoff(handoffs_of(ticket.coordination), input.handoff_id@) ==> (res matches Err(e)
            && (e matches TicketFlowError::HandoffNotFound(s) && s == input.handoff_id)),
        has_handoff(handoffs_of(ticket.coordination), input.handoff_id@) ==> (res matches Ok(c)
            && {
            &&& only_coordination_changed(ticket, c.ticket)
            &&& c.ticket.coordination matches Some(s) && {
                let old_list = handoffs_of(ticket.coordination);
                &&& coordination_kept_for_handoff(ticket.coordination, s)
                &&& s.handoffs@.len() == old_list.len()
                &&& forall|i: int|
                    0 <= i < old_list.len() ==> if old_list[i].id@ == input.handoff_id@ {
                        is_acknowledged(old_list[i], #[trigger] s.handoffs@[i])
                    } else {
                        s.handoffs@[i] == old_list[i]
                    }
            }
            &&& is_event(
                c.event,
                ticket.id,
                TICKET_HANDOFF_ACKED@,
                EventPayload::HandoffAcked { handoff_id: input.handoff_id },
            )
        }),
{
    let mut ticket = ticket;
    let mut coordination = match ticket.coordination {
        Some(c) => c,
        None => CoordinationSection::empty(),
    };
    let ghost old_list = coordination.handoffs@;
    let ghost start = coordination;
    let mut found = false;
    let mut i: usize = 0;
    while i < coordination.handoffs.len()
        invariant
            i <= coordination.handoffs@.len(),
            coordination.handoffs@.len() == old_list.len(),
            forall|j: int| i <= j < old_list.len() ==> coordination.handoffs@[j] == old_list[j],
            forall|j: int|
                0 <= j < i ==> if old_list[j].id@ == input.handoff_id@ {
                    is_acknowledged(old_list[j], #[trigger] coordination.handoffs@[j])
                } else {
                    coordination.handoffs@[j] == old_list[j]
                },
            found <==> exists|j: int| 0 <= j < i && old_list[j].id@ == input.handoff_id@,
            coordination.owners == start.owners,
            coordination.approvals == start.approvals,
            coordination.blockers == start.blockers,
            coordination.extra == start.extra,
        decreases old_list.len() - i,
    {
        if coordination.handoffs[i].id == input.handoff_id {
            let r = &coordination.handoffs[i];
            let updated = HandoffRecord {
                id: r.id.clone(),
                from: r.from.clone(),
                to: r.to.clone(),
                reason: r.reason.clone(),
                status: owned("acknowledged"),
                requested_at: r.requested_at.clone(),
                acknowledged_at: Some(now_rfc3339()),
            };
            coordination.handoffs.set(i, updated);
            found = true;
        }
        i = i + 1;
    }
    if !found {
        return Err(TicketFlowError::HandoffNotFound(input.handoff_id));
    }
    ticket.coordination = Some(coordination);
    ticket.updated = now_rfc3339();
    let event = EventEnvelope::new(
        ticket.id.clone(),
        TICKET_HANDOFF_ACKED,
        EventPayload::HandoffAcked { handoff_id: input.handoff_id },
    );
    Ok(TicketChange { ticket, event })
}

} // verus!
