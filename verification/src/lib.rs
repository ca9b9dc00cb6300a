//! A ticket store for coding agents: the ticket model, its workflow rules,
//! checkpoints, imports, gates, views, context packs and event projection.
use vstd::prelude::*;

pub mod args;
pub mod error;
pub mod event;
pub mod evidence;
pub mod gates;
pub mod import;
pub mod input;
pub mod laws;
pub mod mcp;
pub mod handoff;
pub mod model;
pub mod order;
pub mod mutations;
pub mod status;
pub mod store;
pub mod text;
pub mod views;
pub mod ticket;
pub mod approval;
pub mod checkpoint;
pub mod clawhip;
pub mod clock;
pub mod context_pack;

pub use approval::{request_approval, respond_approval, ApprovalDecision, ApprovalRequest};
pub use context_pack::{build_context_pack, ContextAudience, ContextPack};
pub use error::TicketFlowError;
pub use evidence::{attach_evidence, EvidenceInput};
pub use gates::{blocked_gate, done_gate, ready_gate, review_gate, GateResult};
pub use handoff::{ack_handoff, request_handoff, HandoffAck, HandoffRequest};
pub use import::ImportTicketStoreSummary;
pub use model::{
    Artifact, CheckpointPatch, EvidenceStatus, NextAction, NextActionType, TicketId, TicketStatus,
};
pub use mutations::{AddLogInput, LinkKind, LinkTicketInput};
pub use status::StatusPatch;
pub use store::{StorePaths, TicketStore};
pub use ticket::{CreateTicket, Ticket, TicketIndex};
pub use views::{
    agent_queue, board, coordination, review, AgentQueueItem, BoardView, CoordinationView,
    ReviewView,
};

verus! {

} // verus!
