//! Evidence attached to a ticket.
use vstd::prelude::*;

use crate::clock::{is_clock_text, now_rfc3339};
use crate::error::TicketFlowError;
use crate::event::{EventEnvelope, EventPayload, TICKET_EVIDENCE_ATTACHED, is_event};
use crate::model::{same_artifact, Artifact, EvidenceSection, EvidenceStatus};
use crate::mutations::TicketChange;
use crate::text::{is_blank, is_blank_seq};
use crate::ticket::{same_identity, Ticket};

verus! {

/// A piece of evidence: its artifact type and value.
#[derive(Debug)]
pub struct EvidenceInput {
    pub artifact_type: String,
    pub value: String,
}

/// Whether `a` is the artifact that records `input`.
pub open spec fn records_input(a: Artifact, input: EvidenceInput) -> bool {
    &&& a.artifact_type == input.artifact_type
    &&& a.value == input.value
    &&& a.extra@.len() == 0
}

/// Whether `new` is `old` with the evidence `input` attached at `now`: the
/// artifact, stamped with a clock timestamp, is appended to the ticket's
/// artifacts and to its evidence section, whose status becomes partial.
pub open spec fn evidence_applied(old: Ticket, new: Ticket, input: EvidenceInput, now: String) -> bool {
    let n = old.artifacts@.len();
    &&& same_identity(old, new)
    &&& new.artifacts@.len() == n + 1
    &&& new.artifacts@.drop_last() == old.artifacts@
    &&& records_input(new.artifacts@.last(), input)
    &&& is_clock_text(new.artifacts@.last().ts@)
    &&& new.evidence matches Some(e) && {
        &&& e.evidence_status == EvidenceStatus::Partial
        &&& e.artifacts@.len() > 0
        &&& same_artifact(e.artifacts@.last(), new.artifacts@.last())
        &&& match old.evidence {
            Some(prev) => e.artifacts@.drop_last() == prev.artifacts@ && e.extra == prev.extra,
            None => e.artifacts@.len() == 1 && e.extra@.len() == 0,
        }
    }
    &&& new.updated == now
    &&& new.status == old.status
    &&& new.links == old.links
    &&& new.closed == old.closed
    &&& new.log == old.log
    &&& new.current == old.current
    &&& new.coordination == old.coordination
}

/// Attaches `input` to `ticket` as evidence. A blank value is refused.
pub fn attach_evidence(ticket: Ticket, input: EvidenceInput) -> (res: Result<
    TicketChange,
    TicketFlowError,
>)
    ensures
        res matches Ok(c) ==> is_clock_text(c.ticket.updated@),
        is_blank_seq(input.value@) ==> res matches Err(TicketFlowError::EmptyEvidence),
        !is_blank_seq(input.value@) ==> (res matches Ok(c) && {
            &&& evidence_applied(ticket, c.ticket, input, c.ticket.updated)
            &&& is_event(
                c.event,
                ticket.id,
                TICKET_EVIDENCE_ATTACHED@,
                EventPayload::EvidenceAttached { evidence_status: EvidenceStatus::Partial },
            )
        }),
{
    if is_blank(input.value.as_str()) {
        return Err(TicketFlowError::EmptyEvidence);
    }
    let mut ticket = ticket;
    let artifact = Artifact::new(input.artifact_type, input.value, now_rfc3339());
    let ghost before = ticket.artifacts@;
    ticket.artifacts.push(artifact.clone());
    assert(ticket.artifacts@.drop_last() =~= before);
    let mut evidence = match ticket.evidence {
        Some(e) => e,
        None => EvidenceSection::empty(),
    };
    let ghost prev_artifacts = evidence.artifacts@;
    evidence.artifacts.push(artifact);
    assert(evidence.artifacts@.drop_last() =~= prev_artifacts);
    evidence.evidence_status = EvidenceStatus::Partial;
    ticket.evidence = Some(evidence);
    ticket.updated = now_rfc3339();
    let event = EventEnvelope::new(
        ticket.id.clone(),
        TICKET_EVIDENCE_ATTACHED,
        EventPayload::EvidenceAttached { evidence_status: EvidenceStatus::Partial },
    );
    Ok(TicketChange { ticket, event })
}

} // verus!
