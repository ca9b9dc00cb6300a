//! Context packs: the working state of a ticket for one audience.
use vstd::prelude::*;

use crate::error::TicketFlowError;
use crate::gates::{flag_if, push_text_for, texts};
use crate::model::{clone_next_action, clone_opt, clone_strings, NextAction, TicketId};
use crate::text::{is_blank, is_blank_seq, owned, str_eq};
use crate::ticket::Ticket;

verus! {

/// Who a context pack is for.
#[derive(Debug, Clone, Copy, PartialEq, Eq, Structural)]
pub enum ContextAudience {
    AgentExecution,
    OwnerReview,
    ReleaseReview,
}

/// The wire name of an audience.
pub open spec fn audience_name(a: ContextAudience) -> Seq<char> {
    match a {
        ContextAudience::AgentExecution => "agent_execution"@,
        ContextAudience::OwnerReview => "owner_review"@,
        ContextAudience::ReleaseReview => "release_review"@,
    }
}

/// The audience whose wire name is `v`.
pub open spec fn audience_from_name(v: Seq<char>) -> Option<ContextAudience> {
    if v == "agent_execution"@ {
        Some(ContextAudience::AgentExecution)
    } else if v == "owner_review"@ {
        Some(ContextAudience::OwnerReview)
    } else if v == "release_review"@ {
        Some(ContextAudience::ReleaseReview)
    } else {
        None
    }
}

impl ContextAudience {
    /// The wire name of this audience.
    pub fn as_str(&self) -> (res: &'static str)
        ensures
            res@ == audience_name(*self),
    {
        match self {
            ContextAudience::AgentExecution => "agent_execution",
            ContextAudience::OwnerReview => "owner_review",
            ContextAudience::ReleaseReview => "release_review",
        }
    }
}

/// Parses an audience from its wire name.
pub fn parse_audience(value: &str) -> (res: Result<ContextAudience, TicketFlowError>)
    ensures
        res matches Ok(a) ==> audience_from_name(value@) == Some(a),
        res is Err ==> audience_from_name(value@) is None,
        res matches Err(e) ==> (e matches TicketFlowError::UnknownContextAudience(s) && s@
            == value@),
{
    if str_eq(value, "agent_execution") {
        Ok(ContextAudience::AgentExecution)
    } else if str_eq(value, "owner_review") {
        Ok(ContextAudience::OwnerReview)
    } else if str_eq(value, "release_review") {
        Ok(ContextAudience::ReleaseReview)
    } else {
        Err(TicketFlowError::UnknownContextAudience(owned(value)))
    }
}

/// The working context of a ticket, shaped for one audience.
#[derive(Debug)]
pub struct ContextPack {
    pub audience: ContextAudience,
    pub ticket_id: TicketId,
    pub goal: String,
    pub current_state: Option<String>,
    pub next_action: Option<NextAction>,
    pub constraints: Vec<String>,
    pub acceptance: Vec<String>,
    pub blockers: Vec<String>,
    pub evidence_refs: Vec<String>,
    pub risk_flags: Vec<String>,
}

/// The risk flags of a ticket, in order: `missing_acceptance`, `blocked` (a
/// non-blank blocker), `missing_evidence` (no evidence artifact).
pub open spec fn risk_flag_texts(t: Ticket) -> Seq<Seq<char>> {
    flag_if(t.acceptance@.len() == 0, "missing_acceptance"@) + flag_if(
        t.current matches Some(c) && c.blocker matches Some(b) && !is_blank_seq(b@),
        "blocked"@,
    ) + flag_if(!(t.evidence matches Some(e) && e.artifacts@.len() > 0), "missing_evidence"@)
}

/// The risk flags of `ticket`.
pub fn risk_flags(ticket: &Ticket) -> (res: Vec<String>)
    ensures
        texts(res@) == risk_flag_texts(*ticket),
{
    let mut flags: Vec<String> = Vec::new();
    assert(texts(flags@) =~= Seq::<Seq<char>>::empty());
    if ticket.acceptance.len() == 0 {
        push_text_for(&mut flags, "missing_acceptance");
    }
    let blocked = match &ticket.current {
        Some(c) => match &c.blocker {
            Some(b) => !is_blank(b.as_str()),
            None => false,
        },
        None => false,
    };
    if blocked {
        push_text_for(&mut flags, "blocked");
    }
    let has_evidence = match &ticket.evidence {
        Some(e) => e.artifacts.len() > 0,
        None => false,
    };
    if !has_evidence {
        push_text_for(&mut flags, "missing_evidence");
    }
    proof {
        assert(texts(flags@) =~= risk_flag_texts(*ticket));
    }
    flags
}

/// The values of the artifacts in a ticket's evidence section.
pub open spec fn evidence_values(t: Ticket) -> Seq<String> {
    match t.evidence {
        Some(e) => e.artifacts@.map_values(|a: crate::model::Artifact| a.value),
        None => Seq::empty(),
    }
}

/// The context pack of `ticket` for `audience`.
pub fn build_context_pack(ticket: &Ticket, audience: ContextAudience) -> (res: ContextPack)
    ensures
        res.audience == audience,
        res.ticket_id == ticket.id,
        res.goal == ticket.goal,
        res.current_state == match ticket.current {
            Some(c) => if c.phase is Some {
                c.phase
            } else {
                c.decision
            },
            None => None,
        },
        res.next_action == match ticket.current {
            Some(c) => c.next_action,
            None => None,
        },
        res.constraints@ == match ticket.shared {
            Some(s) => s.constraints@,
            None => Seq::<String>::empty(),
        },
        res.acceptance@ == ticket.acceptance@,
        res.blockers@ == match ticket.coordination {
            Some(c) => c.blockers@,
            None => Seq::<String>::empty(),
        },
        res.evidence_refs@ == evidence_values(*ticket),
        texts(res.risk_flags@) == risk_flag_texts(*ticket),
{
    let constraints = match &ticket.shared {
        Some(s) => clone_strings(&s.constraints),
        None => Vec::new(),
    };
    let blockers = match &ticket.coordination {
        Some(c) => clone_strings(&c.blockers),
        None => Vec::new(),
    };
    let mut evidence_refs: Vec<String> = Vec::new();
    match &ticket.evidence {
        Some(e) => {
            let mut i: usize = 0;
            while i < e.artifacts.len()
                invariant
                    i <= e.artifacts@.len(),
                    evidence_refs@ == e.artifacts@.subrange(0, i as int).map_values(
                        |a: crate::model::Artifact| a.value,
                    ),
                decreases e.artifacts@.len() - i,
            {
                evidence_refs.push(e.artifacts[i].value.clone());
                assert(evidence_refs@ =~= e.artifacts@.subrange(0, i + 1).map_values(
                    |a: crate::model::Artifact| a.value,
                ));
                i = i + 1;
            }
            assert(e.artifacts@.subrange(0, e.artifacts@.len() as int) =~= e.artifacts@);
        },
        None => {
            assert(evidence_refs@ =~= evidence_values(*ticket));
        },
    }
    let current_state = match &ticket.current {
        Some(c) => if c.phase.is_some() {
            clone_opt(&c.phase)
        } else {
            clone_opt(&c.decision)
        },
        None => None,
    };
    let next_action = match &ticket.current {
        Some(c) => clone_next_action(&c.next_action),
        None => None,
    };
    ContextPack {
        audience,
        ticket_id: ticket.id.clone(),
        goal: ticket.goal.clone(),
        current_state,
        next_action,
        constraints,
        acceptance: clone_strings(&ticket.acceptance),
        blockers,
        evidence_refs,
        risk_flags: risk_flags(ticket),
    }
}

} // verus!
