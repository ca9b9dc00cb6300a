//! The command line of the `ticket-flow` tool as plain values, and how each
//! command's arguments become the inputs of the library.
use vstd::prelude::*;

use crate::approval::{ApprovalDecision, ApprovalRequest};
use crate::clawhip::{kind_from_name, ClawhipEventKind};
use crate::context_pack::{audience_from_name, parse_audience, ContextAudience};
use crate::error::TicketFlowError;
use crate::evidence::EvidenceInput;
use crate::handoff::{HandoffAck, HandoffRequest};
use crate::input::{
    decision_from_name, is_valid_source, parse_approval_decision, parse_optional_next_action,
    parse_source, parse_status, source_parts,
};
use crate::model::{
    is_ticket_id_seq, next_action_type_from_name, status_from_name, CheckpointPatch, TicketId,
    TicketSource, TicketStatus,
};
use crate::status::StatusPatch;
use crate::ticket::CreateTicket;

verus! {

/// The whole command line: the store home, the output format and the command.
#[derive(Debug)]
pub struct Cli {
    pub home: Option<String>,
    pub format: OutputFormat,
    pub command: Command,
}

/// How results are printed.
#[derive(Debug, Clone, Copy, PartialEq, Eq, Structural)]
pub enum OutputFormat {
    Pretty,
    Json,
}

/// The commands of the tool.
#[derive(Debug)]
pub enum Command {
    Create(CreateArgs),
    Show(IdArgs),
    List(ListArgs),
    Status(StatusArgs),
    Checkpoint(CheckpointArgs),
    Import(ImportArgs),
    ReadyCheck(IdArgs),
    Evidence { command: EvidenceCommand },
    Handoff { command: HandoffCommand },
    Approval { command: ApprovalCommand },
    Clawhip { command: ClawhipCommand },
    View { command: ViewCommand },
    ContextPack(ContextPackArgs),
}

/// `create`
#[derive(Debug)]
pub struct CreateArgs {
    pub title: String,
    pub ticket_type: String,
    pub priority: String,
    pub goal: String,
    pub parent: Option<String>,
    pub assignee: String,
    pub acceptance: Vec<String>,
    pub tags: Vec<String>,
    pub source: Option<String>,
}

/// A command that names one ticket.
#[derive(Debug)]
pub struct IdArgs {
    pub id: String,
}

/// `list`
#[derive(Debug)]
pub struct ListArgs {
    pub status: Option<String>,
}

/// `status`
#[derive(Debug)]
pub struct StatusArgs {
    pub id: String,
    pub status: String,
    pub artifact: Option<String>,
    pub evidence: Option<String>,
    pub note: Option<String>,
}

/// `checkpoint`
#[derive(Debug)]
pub struct CheckpointArgs {
    pub id: String,
    pub phase: Option<String>,
    pub decision: Option<String>,
    pub evidence: Option<String>,
    pub blocker: Option<String>,
    pub next: Option<String>,
    pub note: Option<String>,
    pub next_type: Option<String>,
    pub next_command: Option<String>,
    pub next_owner: Option<String>,
}

/// `import`
#[derive(Debug)]
pub struct ImportArgs {
    pub source: String,
}

/// `evidence ...`
#[derive(Debug)]
pub enum EvidenceCommand {
    Attach(EvidenceAttachArgs),
}

/// `evidence attach`
#[derive(Debug)]
pub struct EvidenceAttachArgs {
    pub id: String,
    pub artifact_type: String,
    pub value: String,
}

/// `handoff ...`
#[derive(Debug)]
pub enum HandoffCommand {
    Request(HandoffRequestArgs),
    Ack(HandoffAckArgs),
}

/// `handoff request`
#[derive(Debug)]
pub struct HandoffRequestArgs {
    pub id: String,
    pub from: String,
    pub to: String,
    pub reason: String,
}

/// `handoff ack`
#[derive(Debug)]
pub struct HandoffAckArgs {
    pub id: String,
    pub handoff_id: String,
}

/// `approval ...`
#[derive(Debug)]
pub enum ApprovalCommand {
    Request(ApprovalRequestArgs),
    Respond(ApprovalRespondArgs),
}

/// `approval request`
#[derive(Debug)]
pub struct ApprovalRequestArgs {
    pub id: String,
    pub owner: String,
    pub question: String,
}

/// `approval respond`
#[derive(Debug)]
pub struct ApprovalRespondArgs {
    pub id: String,
    pub approval_id: String,
    pub decision: String,
}

/// `clawhip ...`
#[derive(Debug)]
pub enum ClawhipCommand {
    Event(ClawhipEventArgs),
}

/// `clawhip event`
#[derive(Debug)]
pub struct ClawhipEventArgs {
    pub id: String,
    pub kind: String,
    pub print: bool,
    pub send: bool,
    pub url: String,
    pub timeout_ms: u64,
}

/// `view ...`
#[derive(Debug, Clone, Copy, PartialEq, Eq, Structural)]
pub enum ViewCommand {
    AgentQueue,
    Board,
    Review,
    Coordination,
}

/// `context-pack`
#[derive(Debug)]
pub struct ContextPackArgs {
    pub id: String,
    pub audience: String,
}

/// Whether `res` is what parsing `text` as a ticket identifier gives.
pub open spec fn parsed_id(res: Result<TicketId, TicketFlowError>, text: Seq<char>) -> bool {
    &&& res is Ok <==> is_ticket_id_seq(text)
    &&& res matches Ok(id) ==> id@ == text
    &&& res matches Err(e) ==> (e matches TicketFlowError::InvalidTicketId(s) && s@ == text)
}

/// Whether `res` is what reading a command whose ticket identifier is `text`
/// gives: it succeeds exactly when `text` is an identifier, with that
/// identifier first.
pub open spec fn parsed_pair<T>(res: Result<(TicketId, T), TicketFlowError>, text: Seq<char>) -> bool {
    &&& res is Ok <==> is_ticket_id_seq(text)
    &&& res matches Ok(r) ==> r.0@ == text
    &&& res matches Err(e) ==> (e matches TicketFlowError::InvalidTicketId(s) && s@ == text)
}

impl IdArgs {
    /// The ticket that the command names.
    pub fn ticket_id(&self) -> (res: Result<TicketId, TicketFlowError>)
        ensures
            parsed_id(res, self.id@),
    {
        TicketId::parse(self.id.as_str())
    }
}

impl CreateArgs {
    /// The creation input of the command; fails on an invalid `--source`.
    pub fn into_input(self) -> (res: Result<CreateTicket, TicketFlowError>)
        ensures
            res is Ok <==> (self.source matches Some(s) ==> is_valid_source(s@)),
            res matches Ok(c) ==> {
                &&& c.title == self.title
                &&& c.ticket_type == self.ticket_type
                &&& c.priority == self.priority
                &&& c.goal == self.goal
                &&& c.parent == self.parent
                &&& c.assignee == self.assignee
                &&& c.acceptance == self.acceptance
                &&& c.tags == self.tags
                &&& (self.source is None ==> c.source is None)
                &&& (self.source matches Some(s) ==> (c.source matches Some(
                    TicketSource::Reference { kind, reference },
                ) && source_parts(s@) == Some((kind@, reference@))))
            },
            res matches Err(e) ==> (self.source matches Some(s) && e matches TicketFlowError::InvalidSource(
                t,
            ) && t@ == s@),
    {
        let source = parse_source(self.source)?;
        Ok(
            CreateTicket {
                title: self.title,
                ticket_type: self.ticket_type,
                priority: self.priority,
                goal: self.goal,
                parent: self.parent,
                assignee: self.assignee,
                acceptance: self.acceptance,
                tags: self.tags,
                source,
            },
        )
    }
}

impl ListArgs {
    /// The status filter of the listing, if any.
    pub fn status_filter(&self) -> (res: Result<Option<TicketStatus>, TicketFlowError>)
        ensures
            self.status is None ==> res == Ok::<Option<TicketStatus>, TicketFlowError>(None),
            self.status matches Some(v) ==> match status_from_name(v@) {
                Some(s) => res == Ok::<Option<TicketStatus>, TicketFlowError>(Some(s)),
                None => (res matches Err(e) && e matches TicketFlowError::InvalidStatus(t) && t@
                    == v@),
            },
    {
        match &self.status {
            Some(v) => match parse_status(v.as_str()) {
                Ok(s) => Ok(Some(s)),
                Err(e) => Err(e),
            },
            None => Ok(None),
        }
    }
}

impl StatusArgs {
    /// The ticket and the status patch of the command; the identifier is read
    /// first, then the status.
    pub fn into_request(self) -> (res: Result<(TicketId, StatusPatch), TicketFlowError>)
        ensures
            res is Ok <==> is_ticket_id_seq(self.id@) && status_from_name(self.status@) is Some,
            res matches Ok(r) ==> {
                &&& r.0@ == self.id@
                &&& Some(r.1.status) == status_from_name(self.status@)
                &&& r.1.artifact == self.artifact
                &&& r.1.evidence == self.evidence
                &&& r.1.note == self.note
            },
            !is_ticket_id_seq(self.id@) ==> (res matches Err(e) && e matches TicketFlowError::InvalidTicketId(
                s,
            ) && s@ == self.id@),
            is_ticket_id_seq(self.id@) && status_from_name(self.status@) is None ==> (res matches Err(
                e,
            ) && e matches TicketFlowError::InvalidStatus(s) && s@ == self.status@),
    {
        let id = TicketId::parse(self.id.as_str())?;
        let status = parse_status(self.status.as_str())?;
        Ok((id, StatusPatch { status, artifact: self.artifact, evidence: self.evidence, note: self.note }))
    }
}

impl CheckpointArgs {
    /// The ticket and the checkpoint of the command; the identifier is read
    /// first, then the next-action type.
    pub fn into_request(self) -> (res: Result<(TicketId, CheckpointPatch), TicketFlowError>)
        ensures
            res is Ok <==> is_ticket_id_seq(self.id@) && (self.next_type matches Some(t)
                ==> next_action_type_from_name(t@) is Some),
            res matches Ok(r) ==> {
                &&& r.0@ == self.id@
                &&& r.1.phase == self.phase
                &&& r.1.decision == self.decision
                &&& r.1.evidence == self.evidence
                &&& r.1.blocker == self.blocker
                &&& r.1.next == self.next
                &&& r.1.note == self.note
                &&& r.1.next_action_type == match self.next_type {
                    Some(t) => next_action_type_from_name(t@),
                    None => None,
                }
                &&& r.1.next_command == self.next_command
                &&& r.1.next_owner == self.next_owner
            },
            !is_ticket_id_seq(self.id@) ==> (res matches Err(e) && e matches TicketFlowError::InvalidTicketId(
                s,
            ) && s@ == self.id@),
    {
        let id = TicketId::parse(self.id.as_str())?;
        let next_action_type = parse_optional_next_action(self.next_type)?;
        Ok(
            (
                id,
                CheckpointPatch {
                    phase: self.phase,
                    decision: self.decision,
                    evidence: self.evidence,
                    blocker: self.blocker,
                    next: self.next,
                    note: self.note,
                    next_action_type,
                    next_command: self.next_command,
                    next_owner: self.next_owner,
                },
            ),
        )
    }
}

impl EvidenceAttachArgs {
    /// The ticket and the evidence of the command.
    pub fn into_request(self) -> (res: Result<(TicketId, EvidenceInput), TicketFlowError>)
        ensures
            parsed_pair(res, self.id@),
            res matches Ok(r) ==> r.1.artifact_type == self.artifact_type && r.1.value
                == self.value,
    {
        let id = TicketId::parse(self.id.as_str())?;
        Ok((id, EvidenceInput { artifact_type: self.artifact_type, value: self.value }))
    }
}

impl HandoffRequestArgs {
    /// The ticket and the handoff request of the command.
    pub fn into_request(self) -> (res: Result<(TicketId, HandoffRequest), TicketFlowError>)
        ensures
            parsed_pair(res, self.id@),
            res matches Ok(r) ==> r.1.from == self.from && r.1.to == self.to && r.1.reason
                == self.reason,
    {
        let id = TicketId::parse(self.id.as_str())?;
        Ok((id, HandoffRequest { from: self.from, to: self.to, reason: self.reason }))
    }
}

impl HandoffAckArgs {
    /// The ticket and the acknowledgement of the command.
    pub fn into_request(self) -> (res: Result<(TicketId, HandoffAck), TicketFlowError>)
        ensures
            parsed_pair(res, self.id@),
            res matches Ok(r) ==> r.1.handoff_id == self.handoff_id,
    {
        let id = TicketId::parse(self.id.as_str())?;
        Ok((id, HandoffAck { handoff_id: self.handoff_id }))
    }
}

impl ApprovalRequestArgs {
    /// The ticket and the approval request of the command.
    pub fn into_request(self) -> (res: Result<(TicketId, ApprovalRequest), TicketFlowError>)
        ensures
            parsed_pair(res, self.id@),
            res matches Ok(r) ==> r.1.owner == self.owner && r.1.question == self.question,
    {
        let id = TicketId::parse(self.id.as_str())?;
        Ok((id, ApprovalRequest { owner: self.owner, question: self.question }))
    }
}

impl ApprovalRespondArgs {
    /// The ticket, the approval and the decision of the command; the
    /// identifier is read first, then the decision.
    pub fn into_request(self) -> (res: Result<(TicketId, String, ApprovalDecision), TicketFlowError>)
        ensures
            res is Ok <==> is_ticket_id_seq(self.id@) && decision_from_name(self.decision@) is Some,
            res matches Ok(r) ==> r.0@ == self.id@ && r.1 == self.approval_id && Some(r.2)
                == decision_from_name(self.decision@),
            !is_ticket_id_seq(self.id@) ==> (res matches Err(e) && e matches TicketFlowError::InvalidTicketId(
                s,
            ) && s@ == self.id@),
            is_ticket_id_seq(self.id@) && decision_from_name(self.decision@) is None ==> (res matches Err(
                e,
            ) && e matches TicketFlowError::InvalidApprovalDecision(s) && s@ == self.decision@),
    {
        let id = TicketId::parse(self.id.as_str())?;
        let decision = parse_approval_decision(self.decision.as_str())?;
        Ok((id, self.approval_id, decision))
    }
}

impl ClawhipEventArgs {
    /// The ticket that the command names.
    pub fn ticket_id(&self) -> (res: Result<TicketId, TicketFlowError>)
        ensures
            parsed_id(res, self.id@),
    {
        TicketId::parse(self.id.as_str())
    }

    /// The event kind of the command.
    pub fn event_kind(&self) -> (res: Result<ClawhipEventKind, TicketFlowError>)
        ensures
            res matches Ok(k) ==> kind_from_name(self.kind@) == Some(k),
            res is Err ==> kind_from_name(self.kind@) is None,
            res matches Err(e) ==> (e matches TicketFlowError::InvalidClawhipEventKind(s) && s@
                == self.kind@),
    {
        ClawhipEventKind::from_str(self.kind.as_str())
    }

    /// Whether the event is printed: when asked, or when it is not sent.
    pub fn prints(&self) -> (res: bool)
        ensures
            res == (self.print || !self.send),
    {
        self.print || !self.send
    }
}

impl ContextPackArgs {
    /// The ticket and the audience of the command; the identifier is read
    /// first, then the audience.
    pub fn into_request(&self) -> (res: Result<(TicketId, ContextAudience), TicketFlowError>)
        ensures
            res is Ok <==> is_ticket_id_seq(self.id@) && audience_from_name(self.audience@) is Some,
            res matches Ok(r) ==> r.0@ == self.id@ && Some(r.1) == audience_from_name(
                self.audience@,
            ),
            !is_ticket_id_seq(self.id@) ==> (res matches Err(e) && e matches TicketFlowError::InvalidTicketId(
                s,
            ) && s@ == self.id@),
            is_ticket_id_seq(self.id@) && audience_from_name(self.audience@) is None ==> (res matches Err(
                e,
            ) && e matches TicketFlowError::UnknownContextAudience(s) && s@ == self.audience@),
    {
        let id = TicketId::parse(self.id.as_str())?;
        let audience = parse_audience(self.audience.as_str())?;
        Ok((id, audience))
    }
}

} // verus!
