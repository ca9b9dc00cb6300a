//! The events that the store appends to each ticket's event log.
use vstd::prelude::*;

use crate::clock::{is_clock_text, now_rfc3339};
use crate::model::{
    ApprovalRecord, CheckpointPatch, EvidenceStatus, HandoffRecord, NextAction, TicketId,
    TicketStatus,
};
use crate::mutations::LinkKind;
use crate::text::owned;

verus! {

pub const TICKET_AGENT_ACTION_AVAILABLE: &'static str = "ticket.agent_action_available";

pub const TICKET_APPROVAL_REQUESTED: &'static str = "ticket.approval_requested";

pub const TICKET_APPROVAL_RESPONDED: &'static str = "ticket.approval_responded";

pub const TICKET_CHECKPOINTED: &'static str = "ticket.checkpointed";

pub const TICKET_CREATED: &'static str = "ticket.created";

pub const TICKET_EVIDENCE_ATTACHED: &'static str = "ticket.evidence_attached";

pub const TICKET_HANDOFF_ACKED: &'static str = "ticket.handoff_acked";

pub const TICKET_HANDOFF_REQUESTED: &'static str = "ticket.handoff_requested";

pub const TICKET_IMPORTED: &'static str = "ticket.imported";

pub const TICKET_LINKED: &'static str = "ticket.linked";

pub const TICKET_LOG_ADDED: &'static str = "ticket.log_added";

pub const TICKET_STATUS_CHANGED: &'static str = "ticket.status_changed";

/// Whether `c` is a lowercase hexadecimal digit.
pub open spec fn is_lower_hex_char(c: char) -> bool {
    ('0' <= c && c <= '9') || ('a' <= c && c <= 'f')
}

/// Whether `s` is a UUID in hyphenated lowercase form
/// (`xxxxxxxx-xxxx-xxxx-xxxx-xxxxxxxxxxxx`).
pub open spec fn is_hyphenated_uuid(s: Seq<char>) -> bool {
    &&& s.len() == 36
    &&& forall|i: int|
        0 <= i < 36 ==> if i == 8 || i == 13 || i == 18 || i == 23 {
            s[i] == '-'
        } else {
            is_lower_hex_char(#[trigger] s[i])
        }
}

/// Calls `uuid::Uuid::now_v7` and writes the UUID as text. The value comes
/// from the clock and a random source, so only its form is stated: the
/// crate's `Display` writes the hyphenated lowercase form of 36 characters,
/// and a version 7 UUID carries the version digit `7` and an RFC 9562
/// variant digit (`8`, `9`, `a` or `b`). That later calls give later UUIDs is
/// not stated.
#[verifier::external_body]
pub(crate) fn new_uuid_text() -> (res: String)
    ensures
        is_hyphenated_uuid(res@),
        res@[14] == '7',
        res@[19] == '8' || res@[19] == '9' || res@[19] == 'a' || res@[19] == 'b',
{
    uuid::Uuid::now_v7().to_string()
}

/// What an event says; its JSON form is the event's `payload`.
#[derive(Debug)]
#[allow(inconsistent_fields)]
pub enum EventPayload {
    /// `{"title": ...}`
    Created { title: String },
    /// `{"from": ..., "to": ..., "note": ...}`
    StatusChanged { from: TicketStatus, to: TicketStatus, note: Option<String> },
    /// The checkpoint patch itself.
    Checkpointed(CheckpointPatch),
    /// `{"next_action": ...}`
    AgentActionAvailable { next_action: Option<NextAction> },
    /// The link kind.
    Linked(LinkKind),
    /// `{"note": ...}`
    LogAdded { note: String },
    /// `{"evidence_status": ...}`
    EvidenceAttached { evidence_status: EvidenceStatus },
    /// The handoff record.
    HandoffRequested(HandoffRecord),
    /// `{"handoff_id": ...}`
    HandoffAcked { handoff_id: String },
    /// The approval record.
    ApprovalRequested(ApprovalRecord),
    /// `{"approval_id": ..., "outcome": ...}`
    ApprovalResponded { approval_id: String, outcome: String },
    /// `{"source_root": ...}`
    Imported { source_root: String },
}

/// One line of a ticket's event log.
#[derive(Debug)]
pub struct EventEnvelope {
    pub id: String,
    pub ticket_id: TicketId,
    pub event_type: String,
    pub at: String,
    pub actor: String,
    pub payload: EventPayload,
}

/// Whether `e` is an event of `event_type` about `ticket_id`, with a fresh
/// identifier and the `ticket-flow` actor.
pub open spec fn is_event_header(e: EventEnvelope, ticket_id: TicketId, event_type: Seq<char>) -> bool {
    &&& e.ticket_id == ticket_id
    &&& e.event_type@ == event_type
    &&& e.actor@ == "ticket-flow"@
    &&& is_hyphenated_uuid(e.id@)
}

/// Whether `e` is an event of `event_type` about `ticket_id` carrying `payload`,
/// as `EventEnvelope::new` builds it.
pub open spec fn is_event(
    e: EventEnvelope,
    ticket_id: TicketId,
    event_type: Seq<char>,
    payload: EventPayload,
) -> bool {
    &&& is_event_header(e, ticket_id, event_type)
    &&& e.payload == payload
}

impl EventEnvelope {
    /// A new event with a fresh identifier, stamped with the current time and
    /// the `ticket-flow` actor.
    pub fn new(ticket_id: TicketId, event_type: &str, payload: EventPayload) -> (res: EventEnvelope)
        ensures
            is_event(res, ticket_id, event_type@, payload),
            is_clock_text(res.at@),
    {
        EventEnvelope {
            id: new_uuid_text(),
            ticket_id,
            event_type: owned(event_type),
            at: now_rfc3339(),
            actor: owned("ticket-flow"),
            payload,
        }
    }
}

} // verus!
