//! The errors of the ticket store and its adapters.
use vstd::prelude::*;

use crate::model::{status_name, TicketStatus};
use crate::text::join2;

verus! {

/// Every way an operation of the library can fail.
#[derive(Debug, PartialEq, Eq)]
pub enum TicketFlowError {
    ApprovalOutcomeNotAllowed,
    BlockedGateFailed,
    DuplicateDestinationTicket(String),
    DuplicateSourceTicket(String),
    EmptyCheckpoint,
    EmptyEvidence,
    HomeDirectoryUnavailable,
    IdSequenceExhausted(String),
    InvalidImportSource(String),
    InvalidSource(String),
    InvalidStatus(String),
    InvalidLinkKind(String),
    InvalidClawhipEventKind(String),
    InvalidTicketId(String),
    InvalidTransition { from: TicketStatus, to: TicketStatus },
    ApprovalNotFound(String),
    HandoffNotFound(String),
    ReviewArtifactRequired,
    TicketNotFound(String),
    ClawhipHttpStatus(u16),
    InvalidApprovalDecision(String),
    UnknownContextAudience(String),
    EmptyTitle,
    UnknownTool(String),
    Io(String),
    Json(String),
    Http(String),
}

/// The message that an error of `kind` reads as.
pub open spec fn error_message(e: TicketFlowError) -> Seq<char> {
    match e {
        TicketFlowError::ApprovalOutcomeNotAllowed => "approval outcome not allowed"@,
        TicketFlowError::BlockedGateFailed => "blocked gate failed: needed_from or next_owner required"@,
        TicketFlowError::DuplicateDestinationTicket(s) => "duplicate destination ticket "@ + s@,
        TicketFlowError::DuplicateSourceTicket(s) => "duplicate source ticket "@ + s@,
        TicketFlowError::EmptyCheckpoint => "checkpoint requires at least one field"@,
        TicketFlowError::EmptyEvidence => "evidence value must not be empty"@,
        TicketFlowError::HomeDirectoryUnavailable => "home directory is not available"@,
        TicketFlowError::IdSequenceExhausted(s) => "id sequence exhausted for date "@ + s@,
        TicketFlowError::InvalidImportSource(s) => "invalid import source "@ + s@,
        TicketFlowError::InvalidSource(s) => "invalid source "@ + s@,
        TicketFlowError::InvalidStatus(s) => "invalid status "@ + s@,
        TicketFlowError::InvalidLinkKind(s) => "invalid link kind "@ + s@,
        TicketFlowError::InvalidClawhipEventKind(s) => "invalid clawhip event kind "@ + s@,
        TicketFlowError::InvalidTicketId(s) => "invalid ticket id "@ + s@,
        TicketFlowError::InvalidTransition { from, to } => "invalid transition "@ + status_name(
            from,
        ) + " -> "@ + status_name(to),
        TicketFlowError::ApprovalNotFound(s) => "approval "@ + s@ + " not found"@,
        TicketFlowError::HandoffNotFound(s) => "handoff "@ + s@ + " not found"@,
        TicketFlowError::ReviewArtifactRequired => "review requires --artifact"@,
        TicketFlowError::TicketNotFound(s) => "ticket "@ + s@ + " not found"@,
        TicketFlowError::ClawhipHttpStatus(code) => "clawhip returned HTTP "@
            + crate::text::decimal(code as nat),
        TicketFlowError::InvalidApprovalDecision(s) =>
            "approval decision must be approved or rejected, got "@ + s@,
        TicketFlowError::UnknownContextAudience(s) => "unknown context audience "@ + s@,
        TicketFlowError::EmptyTitle => "title must not be empty"@,
        TicketFlowError::UnknownTool(s) => "unknown tool "@ + s@,
        TicketFlowError::Io(s) => s@,
        TicketFlowError::Json(s) => s@,
        TicketFlowError::Http(s) => s@,
    }
}

fn three(a: &str, b: &str, c: &str) -> (res: String)
    ensures
        res@ == a@ + b@ + c@,
{
    let mut r = join2(a, b);
    r.append(c);
    r
}

impl TicketFlowError {
    /// The human-readable message of this error.
    pub fn message(&self) -> (res: String)
        ensures
            res@ == error_message(*self),
    {
        match self {
            TicketFlowError::ApprovalOutcomeNotAllowed => "approval outcome not allowed".to_string(),
            TicketFlowError::BlockedGateFailed => "blocked gate failed: needed_from or next_owner required".to_string(),
            TicketFlowError::DuplicateDestinationTicket(s) => join2(
                "duplicate destination ticket ",
                s.as_str(),
            ),
            TicketFlowError::DuplicateSourceTicket(s) => join2("duplicate source ticket ", s.as_str()),
            TicketFlowError::EmptyCheckpoint => "checkpoint requires at least one field".to_string(),
            TicketFlowError::EmptyEvidence => "evidence value must not be empty".to_string(),
            TicketFlowError::HomeDirectoryUnavailable => "home directory is not available".to_string(),
            TicketFlowError::IdSequenceExhausted(s) => join2(
                "id sequence exhausted for date ",
                s.as_str(),
            ),
            TicketFlowError::InvalidImportSource(s) => join2("invalid import source ", s.as_str()),
            TicketFlowError::InvalidSource(s) => join2("invalid source ", s.as_str()),
            TicketFlowError::InvalidStatus(s) => join2("invalid status ", s.as_str()),
            TicketFlowError::InvalidLinkKind(s) => join2("invalid link kind ", s.as_str()),
            TicketFlowError::InvalidClawhipEventKind(s) => join2(
                "invalid clawhip event kind ",
                s.as_str(),
            ),
            TicketFlowError::InvalidTicketId(s) => join2("invalid ticket id ", s.as_str()),
            TicketFlowError::InvalidTransition { from, to } => {
                let mut r = three("invalid transition ", from.as_str(), " -> ");
                r.append(to.as_str());
                r
            },
            TicketFlowError::ApprovalNotFound(s) => three("approval ", s.as_str(), " not found"),
            TicketFlowError::HandoffNotFound(s) => three("handoff ", s.as_str(), " not found"),
            TicketFlowError::ReviewArtifactRequired => "review requires --artifact".to_string(),
            TicketFlowError::TicketNotFound(s) => three("ticket ", s.as_str(), " not found"),
            TicketFlowError::ClawhipHttpStatus(code) => {
                let digits = crate::text::decimal_string(*code as u64);
                join2("clawhip returned HTTP ", digits.as_str())
            },
            TicketFlowError::InvalidApprovalDecision(s) => join2(
                "approval decision must be approved or rejected, got ",
                s.as_str(),
            ),
            TicketFlowError::UnknownContextAudience(s) => join2(
                "unknown context audience ",
                s.as_str(),
            ),
            TicketFlowError::EmptyTitle => "title must not be empty".to_string(),
            TicketFlowError::UnknownTool(s) => join2("unknown tool ", s.as_str()),
            TicketFlowError::Io(s) => s.clone(),
            TicketFlowError::Json(s) => s.clone(),
            TicketFlowError::Http(s) => s.clone(),
        }
    }
}

} // verus!
