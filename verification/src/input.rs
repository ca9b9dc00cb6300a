//! Reading the text that callers pass in: statuses, next-action types,
//! approval decisions, `kind:ref` sources, and the status filter of a listing.
use vstd::prelude::*;

use crate::approval::{decision_name, ApprovalDecision};
use crate::error::TicketFlowError;
use crate::model::{
    next_action_type_from_name, status_from_name, NextActionType, TicketSource, TicketStatus,
};
use crate::text::{find_char, first_index_of, is_blank, is_blank_seq, lemma_first_index_of, owned, str_eq};
use crate::ticket::Ticket;

verus! {

/// Parses a ticket status from its wire name.
pub fn parse_status(value: &str) -> (res: Result<TicketStatus, TicketFlowError>)
    ensures
        res matches Ok(s) ==> status_from_name(value@) == Some(s),
        res is Err ==> status_from_name(value@) is None,
        res matches Err(e) ==> (e matches TicketFlowError::InvalidStatus(t) && t@ == value@),
{
    TicketStatus::from_str(value)
}

/// Parses an optional next-action type; absent stays absent.
pub fn parse_optional_next_action(value: Option<String>) -> (res: Result<
    Option<NextActionType>,
    TicketFlowError,
>)
    ensures
        value is None ==> res == Ok::<Option<NextActionType>, TicketFlowError>(None),
        value matches Some(v) ==> match next_action_type_from_name(v@) {
            Some(t) => res == Ok::<Option<NextActionType>, TicketFlowError>(Some(t)),
            None => (res matches Err(e) && e matches TicketFlowError::InvalidStatus(s) && s@
                == v@),
        },
{
    match value {
        Some(text) => match NextActionType::from_str(text.as_str()) {
            Ok(t) => Ok(Some(t)),
            Err(e) => Err(e),
        },
        None => Ok(None),
    }
}

/// The decision whose wire name is `v`.
pub open spec fn decision_from_name(v: Seq<char>) -> Option<ApprovalDecision> {
    if v == "approved"@ {
        Some(ApprovalDecision::Approved)
    } else if v == "rejected"@ {
        Some(ApprovalDecision::Rejected)
    } else {
        None
    }
}

/// Parses an approval decision: `approved` or `rejected`.
pub fn parse_approval_decision(value: &str) -> (res: Result<ApprovalDecision, TicketFlowError>)
    ensures
        res matches Ok(d) ==> decision_from_name(value@) == Some(d),
        res is Err ==> decision_from_name(value@) is None,
        res matches Err(e) ==> (e matches TicketFlowError::InvalidApprovalDecision(s) && s@
            == value@),
{
    if str_eq(value, "approved") {
        Ok(ApprovalDecision::Approved)
    } else if str_eq(value, "rejected") {
        Ok(ApprovalDecision::Rejected)
    } else {
        Err(TicketFlowError::InvalidApprovalDecision(owned(value)))
    }
}

/// The two sides of `kind:ref`, split at the first `:`.
pub open spec fn source_parts(s: Seq<char>) -> Option<(Seq<char>, Seq<char>)> {
    match first_index_of(s, ':') {
        Some(i) => Some((s.subrange(0, i), s.subrange(i + 1, s.len() as int))),
        None => None,
    }
}

/// Whether `s` is a valid `kind:ref` source: it has a `:`, and neither side of
/// the first one is blank.
pub open spec fn is_valid_source(s: Seq<char>) -> bool {
    source_parts(s) matches Some((k, r)) && !is_blank_seq(k) && !is_blank_seq(r)
}

/// Parses an optional `kind:ref` source into the reference it names.
pub fn parse_source(value: Option<String>) -> (res: Result<Option<TicketSource>, TicketFlowError>)
    ensures
        value is None ==> (res matches Ok(o) && o is None),
        value matches Some(v) ==> (is_valid_source(v@) <==> res is Ok),
        value matches Some(v) ==> (res matches Ok(o) ==> (o matches Some(
            TicketSource::Reference { kind, reference },
        ) && source_parts(v@) == Some((kind@, reference@)))),
        value matches Some(v) ==> (res matches Err(e) ==> (e matches TicketFlowError::InvalidSource(
            s,
        ) && s@ == v@)),
{
    let source = match value {
        Some(s) => s,
        None => return Ok(None),
    };
    let text = source.as_str();
    proof {
        lemma_first_index_of(text@, ':');
    }
    match find_char(text, ':') {
        Some(i) => {
            let n = text.unicode_len();
            let kind = text.substring_char(0, i);
            let reference = text.substring_char(i + 1, n);
            if is_blank(kind) || is_blank(reference) {
                Err(TicketFlowError::InvalidSource(owned(text)))
            } else {
                Ok(Some(TicketSource::Reference { kind: owned(kind), reference: owned(reference) }))
            }
        },
        None => Err(TicketFlowError::InvalidSource(owned(text))),
    }
}

/// Whether `t` passes an optional status filter.
pub open spec fn status_matches(t: Ticket, status: Option<TicketStatus>) -> bool {
    match status {
        Some(s) => t.status == s,
        None => true,
    }
}

/// The tickets of `tickets` that pass the optional status filter, in order.
pub fn tickets_with_status(tickets: Vec<Ticket>, status: Option<TicketStatus>) -> (res: Vec<Ticket>)
    ensures
        res@ == tickets@.filter(|t: Ticket| status_matches(t, status)),
{
    let ghost all = tickets@;
    let n = tickets.len();
    let mut rest = tickets;
    let mut out: Vec<Ticket> = Vec::new();
    let mut i: usize = 0;
    while i < n
        invariant
            n == all.len(),
            i <= n,
            rest@ == all.subrange(i as int, n as int),
            out@ == all.subrange(0, i as int).filter(|t: Ticket| status_matches(t, status)),
        decreases n - i,
    {
        proof {
            assert(all.subrange(0, i + 1) =~= all.subrange(0, i as int).push(all[i as int]));
            all.subrange(0, i as int).lemma_filter_push(
                all[i as int],
                |t: Ticket| status_matches(t, status),
            );
            assert(rest@[0] == all[i as int]);
        }
        let t = rest.remove(0);
        assert(rest@ =~= all.subrange(i + 1, n as int));
        let keep = match status {
            Some(s) => t.status == s,
            None => true,
        };
        if keep {
            out.push(t);
        }
        i = i + 1;
    }
    assert(all.subrange(0, n as int) =~= all);
    out
}

} // verus!
