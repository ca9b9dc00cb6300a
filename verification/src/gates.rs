//! Readiness gates: what a ticket lacks before it can move on.
use vstd::prelude::*;

use crate::model::{EvidenceStatus, NextAction, NextActionType, TicketStatus};
use crate::text::{is_blank, is_blank_seq, owned};
use crate::ticket::Ticket;

verus! {

/// The verdict of one gate: which fields are missing, and whether none is.
#[derive(Debug)]
pub struct GateResult {
    pub gate: String,
    pub passed: bool,
    pub missing: Vec<String>,
    pub warnings: Vec<String>,
}

/// The texts of a list of strings.
pub open spec fn texts(v: Seq<String>) -> Seq<Seq<char>> {
    v.map_values(|s: String| s@)
}

/// Whether `g` is the verdict of gate `name` with the missing fields `missing`
/// and no warnings; it passes exactly when nothing is missing.
pub open spec fn is_gate(g: GateResult, name: Seq<char>, missing: Seq<Seq<char>>) -> bool {
    &&& g.gate@ == name
    &&& texts(g.missing@) == missing
    &&& g.passed == (missing.len() == 0)
    &&& g.warnings@.len() == 0
}

impl GateResult {
    /// The verdict of gate `gate` with the given missing fields and warnings.
    pub fn new(gate: &str, missing: Vec<String>, warnings: Vec<String>) -> (res: GateResult)
        ensures
            res.gate@ == gate@,
            res.missing == missing,
            res.warnings == warnings,
            res.passed == (missing@.len() == 0),
    {
        GateResult { gate: owned(gate), passed: missing.len() == 0, missing, warnings }
    }
}

/// The next action on a ticket's current state.
pub open spec fn current_next_action(t: Ticket) -> Option<NextAction> {
    match t.current {
        Some(c) => c.next_action,
        None => None,
    }
}

/// The type of a ticket's next action.
pub open spec fn next_action_type_of(t: Ticket) -> Option<NextActionType> {
    match current_next_action(t) {
        Some(a) => a.action_type,
        None => None,
    }
}

/// `seq![item]` when `cond` holds, else empty.
pub open spec fn flag_if(cond: bool, item: Seq<char>) -> Seq<Seq<char>> {
    if cond {
        seq![item]
    } else {
        Seq::empty()
    }
}

proof fn lemma_texts_push(v: Seq<String>, s: String)
    ensures
        texts(v.push(s)) == texts(v).push(s@),
{
    assert(texts(v.push(s)) =~= texts(v).push(s@));
}

/// Appends the text `t` to `v`.
pub fn push_text_for(v: &mut Vec<String>, t: &str)
    ensures
        texts(final(v)@) == texts(old(v)@).push(t@),
{
    let s = owned(t);
    proof {
        lemma_texts_push(v@, s);
    }
    v.push(s);
}

/// What the ready gate finds missing, in order: `goal` (blank),
/// `acceptance` (none), `current.next_action` (no typed next action).
pub open spec fn ready_missing(t: Ticket) -> Seq<Seq<char>> {
    flag_if(is_blank_seq(t.goal@), "goal"@) + flag_if(t.acceptance@.len() == 0, "acceptance"@)
        + flag_if(next_action_type_of(t) is None, "current.next_action"@)
}

/// The ready gate: a ticket needs a goal, acceptance criteria and a typed next action.
pub fn ready_gate(ticket: &Ticket) -> (res: GateResult)
    ensures
        is_gate(
            res,
            "ready"@,
            ready_missing(*ticket),
        ),
{
    let mut missing: Vec<String> = Vec::new();
    assert(texts(missing@) =~= Seq::<Seq<char>>::empty());
    if is_blank(ticket.goal.as_str()) {
        push_text_for(&mut missing, "goal");
    }
    if ticket.acceptance.len() == 0 {
        push_text_for(&mut missing, "acceptance");
    }
    let has_type = match &ticket.current {
        Some(c) => match &c.next_action {
            Some(a) => a.action_type.is_some(),
            None => false,
        },
        None => false,
    };
    if !has_type {
        push_text_for(&mut missing, "current.next_action");
    }
    proof {
        assert(texts(missing@) =~= ready_missing(*ticket));
    }
    GateResult::new("ready", missing, Vec::new())
}

/// Whether a ticket counts as blocked: its status is blocked, or its current
/// state names a non-blank blocker.
pub open spec fn has_blocker(t: Ticket) -> bool {
    t.status == TicketStatus::Blocked || (t.current matches Some(c) && c.blocker matches Some(b)
        && !is_blank_seq(b@))
}

/// Whether the next action of a ticket names a non-blank owner.
pub open spec fn has_next_owner(t: Ticket) -> bool {
    current_next_action(t) matches Some(a) && a.owner matches Some(o) && !is_blank_seq(o@)
}

/// The blocked gate: a blocked ticket needs an owner for its next action.
pub fn blocked_gate(ticket: &Ticket) -> (res: GateResult)
    ensures
        is_gate(
            res,
            "blocked"@,
            flag_if(has_blocker(*ticket) && !has_next_owner(*ticket), "current.next_action.owner"@),
        ),
{
    let blocker = match &ticket.current {
        Some(c) => match &c.blocker {
            Some(b) => !is_blank(b.as_str()),
            None => false,
        },
        None => false,
    };
    let blocked = ticket.status == TicketStatus::Blocked || blocker;
    let mut missing: Vec<String> = Vec::new();
    assert(texts(missing@) =~= Seq::<Seq<char>>::empty());
    if !blocked {
        return GateResult::new("blocked", missing, Vec::new());
    }
    let owner = match &ticket.current {
        Some(c) => match &c.next_action {
            Some(a) => match &a.owner {
                Some(o) => !is_blank(o.as_str()),
                None => false,
            },
            None => false,
        },
        None => false,
    };
    if !owner {
        push_text_for(&mut missing, "current.next_action.owner");
    }
    GateResult::new("blocked", missing, Vec::new())
}

/// Whether a ticket has an artifact, on the ticket or in its evidence section.
pub open spec fn has_any_artifact(t: Ticket) -> bool {
    t.artifacts@.len() > 0 || (t.evidence matches Some(e) && e.artifacts@.len() > 0)
}

/// The review gate: a ticket in review needs an artifact.
pub fn review_gate(ticket: &Ticket) -> (res: GateResult)
    ensures
        is_gate(
            res,
            "review"@,
            flag_if(
                ticket.status == TicketStatus::Review && !has_any_artifact(*ticket),
                "evidence.artifacts"@,
            ),
        ),
{
    let has_artifact = ticket.artifacts.len() > 0 || match &ticket.evidence {
        Some(e) => e.artifacts.len() > 0,
        None => false,
    };
    let mut missing: Vec<String> = Vec::new();
    assert(texts(missing@) =~= Seq::<Seq<char>>::empty());
    if ticket.status == TicketStatus::Review && !has_artifact {
        push_text_for(&mut missing, "evidence.artifacts");
    }
    GateResult::new("review", missing, Vec::new())
}

/// Whether a ticket has evidence: a partial or sufficient evidence status, or an artifact.
pub open spec fn has_evidence(t: Ticket) -> bool {
    (t.evidence matches Some(e) && (e.evidence_status == EvidenceStatus::Partial
        || e.evidence_status == EvidenceStatus::Sufficient)) || t.artifacts@.len() > 0
}

/// What the done gate finds missing, in order: `acceptance` (none),
/// `evidence` (no evidence).
pub open spec fn done_missing(t: Ticket) -> Seq<Seq<char>> {
    flag_if(t.acceptance@.len() == 0, "acceptance"@) + flag_if(!has_evidence(t), "evidence"@)
}

/// The done gate: a ticket needs acceptance criteria and evidence.
pub fn done_gate(ticket: &Ticket) -> (res: GateResult)
    ensures
        is_gate(
            res,
            "done"@,
            done_missing(*ticket),
        ),
        ticket.acceptance@.len() > 0 && ticket.artifacts@.len() > 0 ==> res.passed
            && res.missing@.len() == 0,
{
    let status_ok = match &ticket.evidence {
        Some(e) => e.evidence_status == EvidenceStatus::Partial || e.evidence_status
            == EvidenceStatus::Sufficient,
        None => false,
    };
    let evidence = status_ok || ticket.artifacts.len() > 0;
    let mut missing: Vec<String> = Vec::new();
    assert(texts(missing@) =~= Seq::<Seq<char>>::empty());
    if ticket.acceptance.len() == 0 {
        push_text_for(&mut missing, "acceptance");
    }
    if !evidence {
        push_text_for(&mut missing, "evidence");
    }
    proof {
        assert(texts(missing@) =~= done_missing(*ticket));
    }
    GateResult::new("done", missing, Vec::new())
}

/// The next-action gate: the ticket's next action must be of type `expected`.
pub fn next_action_gate(ticket: &Ticket, expected: NextActionType) -> (res: GateResult)
    ensures
        is_gate(
            res,
            "next_action"@,
            flag_if(next_action_type_of(*ticket) != Some(expected), "current.next_action.type"@),
        ),
{
    let actual = match &ticket.current {
        Some(c) => match &c.next_action {
            Some(a) => a.action_type,
            None => None,
        },
        None => None,
    };
    let mut missing: Vec<String> = Vec::new();
    assert(texts(missing@) =~= Seq::<Seq<char>>::empty());
    if actual != Some(expected) {
        push_text_for(&mut missing, "current.next_action.type");
    }
    GateResult::new("next_action", missing, Vec::new())
}

/// Whether a ready check passes: both the ready gate and the blocked gate pass.
pub fn ready_check_passed(ready: &GateResult, blocked: &GateResult) -> (res: bool)
    ensures
        res == (ready.passed && blocked.passed),
{
    ready.passed && blocked.passed
}

} // verus!
