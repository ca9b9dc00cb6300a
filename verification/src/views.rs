//! Read-only views over a list of tickets: the agent queue, the board, the
//! review list and the coordination overview.
use vstd::prelude::*;

use crate::model::{clone_opt, clone_strings, NextActionType, TicketId, TicketStatus};
use crate::gates::next_action_type_of;
use crate::ticket::Ticket;

verus! {

/// One ticket as a line of a view.
#[derive(Debug)]
pub struct TicketViewItem {
    pub id: TicketId,
    pub title: String,
    pub status: TicketStatus,
    pub priority: String,
    pub updated: String,
}

/// A ticket whose next action is for an agent.
#[derive(Debug)]
pub struct AgentQueueItem {
    pub id: TicketId,
    pub title: String,
    pub status: TicketStatus,
    pub owner: Option<String>,
    pub command: Option<String>,
    pub next: Option<String>,
    pub updated: String,
}

/// The unfinished tickets, by status.
#[derive(Debug)]
pub struct BoardView {
    pub open: Vec<TicketViewItem>,
    pub doing: Vec<TicketViewItem>,
    pub review: Vec<TicketViewItem>,
    pub blocked: Vec<TicketViewItem>,
}

/// The tickets waiting for review.
#[derive(Debug)]
pub struct ReviewView {
    pub tickets: Vec<TicketViewItem>,
}

/// The tickets that carry a coordination section.
#[derive(Debug)]
pub struct CoordinationView {
    pub tickets: Vec<CoordinationTicket>,
}

/// The coordination summary of one ticket.
#[derive(Debug)]
pub struct CoordinationTicket {
    pub id: TicketId,
    pub title: String,
    pub handoffs: usize,
    pub approvals: usize,
    pub blockers: Vec<String>,
}

/// `item` shows `t`.
pub open spec fn is_view_item(item: TicketViewItem, t: Ticket) -> bool {
    &&& item.id == t.id
    &&& item.title == t.title
    &&& item.status == t.status
    &&& item.priority == t.priority
    &&& item.updated == t.updated
}

/// `items` shows `ts`, one item per ticket, in order.
pub open spec fn shows_all(items: Seq<TicketViewItem>, ts: Seq<Ticket>) -> bool {
    &&& items.len() == ts.len()
    &&& forall|i: int| 0 <= i < ts.len() ==> #[trigger] is_view_item(items[i], ts[i])
}

/// A ticket whose current next action has the type `agent_action`.
pub open spec fn is_agent_ticket(t: Ticket) -> bool {
    t.current matches Some(c) && c.next_action matches Some(a) && a.action_type == Some(
        NextActionType::AgentAction,
    )
}

/// `item` is the queue entry of `t`, an agent ticket.
pub open spec fn is_queue_item(item: AgentQueueItem, t: Ticket) -> bool {
    &&& t.current matches Some(c)
    &&& c.next_action matches Some(a)
    &&& item.id == t.id
    &&& item.title == t.title
    &&& item.status == t.status
    &&& item.owner == a.owner
    &&& item.command == a.command
    &&& item.next == c.next
    &&& item.updated == t.updated
}

/// The tickets of `ts` whose status is `s`, in order.
pub open spec fn with_status(ts: Seq<Ticket>, s: TicketStatus) -> Seq<Ticket> {
    ts.filter(|t: Ticket| t.status == s)
}

/// The agent tickets of `ts`, in order.
pub open spec fn agent_tickets(ts: Seq<Ticket>) -> Seq<Ticket> {
    ts.filter(|t: Ticket| is_agent_ticket(t))
}

/// The tickets of `ts` that carry a coordination section, in order.
pub open spec fn coordinated(ts: Seq<Ticket>) -> Seq<Ticket> {
    ts.filter(|t: Ticket| t.coordination is Some)
}

/// `c` summarises the coordination section of `t`.
pub open spec fn is_coordination_of(c: CoordinationTicket, t: Ticket) -> bool {
    &&& t.coordination matches Some(co)
    &&& c.id == t.id
    &&& c.title == t.title
    &&& c.handoffs == co.handoffs@.len()
    &&& c.approvals == co.approvals@.len()
    &&& c.blockers@ == co.blockers@
}

/// The view line of `ticket`.
pub fn ticket_item(ticket: &Ticket) -> (res: TicketViewItem)
    ensures
        is_view_item(res, *ticket),
{
    TicketViewItem {
        id: ticket.id.clone(),
        title: ticket.title.clone(),
        status: ticket.status,
        priority: ticket.priority.clone(),
        updated: ticket.updated.clone(),
    }
}

/// The queue entry of `ticket` when its next action is for an agent.
pub fn agent_queue_item(ticket: &Ticket) -> (res: Option<AgentQueueItem>)
    ensures
        res is Some <==> is_agent_ticket(*ticket),
        res is Some <==> next_action_type_of(*ticket) == Some(NextActionType::AgentAction),
        res matches Some(item) ==> is_queue_item(item, *ticket),
{
    let current = match &ticket.current {
        Some(c) => c,
        None => return None,
    };
    let next_action = match &current.next_action {
        Some(a) => a,
        None => return None,
    };
    match next_action.action_type {
        Some(NextActionType::AgentAction) => {},
        _ => return None,
    }
    Some(
        AgentQueueItem {
            id: ticket.id.clone(),
            title: ticket.title.clone(),
            status: ticket.status,
            owner: clone_opt(&next_action.owner),
            command: clone_opt(&next_action.command),
            next: clone_opt(&current.next),
            updated: ticket.updated.clone(),
        },
    )
}

/// The agent queue of `tickets`: one entry per ticket whose next action is for
/// an agent, in the order of `tickets`.
pub fn agent_queue(tickets: &Vec<Ticket>) -> (res: Vec<AgentQueueItem>)
    ensures
        res@.len() == agent_tickets(tickets@).len(),
        forall|i: int|
            0 <= i < res@.len() ==> #[trigger] is_queue_item(res@[i], agent_tickets(tickets@)[i]),
{
    let mut out: Vec<AgentQueueItem> = Vec::new();
    let mut i: usize = 0;
    while i < tickets.len()
        invariant
            i <= tickets@.len(),
            out@.len() == agent_tickets(tickets@.subrange(0, i as int)).len(),
            forall|j: int|
                0 <= j < out@.len() ==> #[trigger] is_queue_item(
                    out@[j],
                    agent_tickets(tickets@.subrange(0, i as int))[j],
                ),
        decreases tickets@.len() - i,
    {
        let ghost before = tickets@.subrange(0, i as int);
        proof {
            assert(tickets@.subrange(0, i + 1) =~= before.push(tickets@[i as int]));
            before.lemma_filter_push(tickets@[i as int], |t: Ticket| is_agent_ticket(t));
        }
        match agent_queue_item(&tickets[i]) {
            Some(item) => {
                out.push(item);
            },
            None => {},
        }
        i = i + 1;
    }
    assert(tickets@.subrange(0, tickets@.len() as int) =~= tickets@);
    out
}

/// The lines of the tickets of `tickets` whose status is `status`, in order.
pub fn items_with_status(tickets: &Vec<Ticket>, status: TicketStatus) -> (res: Vec<TicketViewItem>)
    ensures
        shows_all(res@, with_status(tickets@, status)),
{
    let mut out: Vec<TicketViewItem> = Vec::new();
    let mut i: usize = 0;
    while i < tickets.len()
        invariant
            i <= tickets@.len(),
            shows_all(out@, with_status(tickets@.subrange(0, i as int), status)),
        decreases tickets@.len() - i,
    {
        let ghost before = tickets@.subrange(0, i as int);
        proof {
            assert(tickets@.subrange(0, i + 1) =~= before.push(tickets@[i as int]));
            before.lemma_filter_push(tickets@[i as int], |t: Ticket| t.status == status);
        }
        if tickets[i].status == status {
            out.push(ticket_item(&tickets[i]));
        }
        i = i + 1;
    }
    assert(tickets@.subrange(0, tickets@.len() as int) =~= tickets@);
    out
}

/// The board of `tickets`: the open, doing, review and blocked tickets, each
/// column in the order of `tickets`; done tickets are left out.
pub fn board(tickets: &Vec<Ticket>) -> (res: BoardView)
    ensures
        shows_all(res.open@, with_status(tickets@, TicketStatus::Open)),
        shows_all(res.doing@, with_status(tickets@, TicketStatus::Doing)),
        shows_all(res.review@, with_status(tickets@, TicketStatus::Review)),
        shows_all(res.blocked@, with_status(tickets@, TicketStatus::Blocked)),
{
    BoardView {
        open: items_with_status(tickets, TicketStatus::Open),
        doing: items_with_status(tickets, TicketStatus::Doing),
        review: items_with_status(tickets, TicketStatus::Review),
        blocked: items_with_status(tickets, TicketStatus::Blocked),
    }
}

/// The review list of `tickets`: the tickets in review, in order.
pub fn review(tickets: &Vec<Ticket>) -> (res: ReviewView)
    ensures
        shows_all(res.tickets@, with_status(tickets@, TicketStatus::Review)),
{
    ReviewView { tickets: items_with_status(tickets, TicketStatus::Review) }
}

/// The coordination overview of `tickets`: one summary per ticket that carries
/// a coordination section, in order.
pub fn coordination(tickets: &Vec<Ticket>) -> (res: CoordinationView)
    ensures
        res.tickets@.len() == coordinated(tickets@).len(),
        forall|i: int|
            0 <= i < res.tickets@.len() ==> #[trigger] is_coordination_of(
                res.tickets@[i],
                coordinated(tickets@)[i],
            ),
{
    let mut out: Vec<CoordinationTicket> = Vec::new();
    let mut i: usize = 0;
    while i < tickets.len()
        invariant
            i <= tickets@.len(),
            out@.len() == coordinated(tickets@.subrange(0, i as int)).len(),
            forall|j: int|
                0 <= j < out@.len() ==> #[trigger] is_coordination_of(
                    out@[j],
                    coordinated(tickets@.subrange(0, i as int))[j],
                ),
        decreases tickets@.len() - i,
    {
        let ghost before = tickets@.subrange(0, i as int);
        proof {
            assert(tickets@.subrange(0, i + 1) =~= before.push(tickets@[i as int]));
            before.lemma_filter_push(tickets@[i as int], |t: Ticket| t.coordination is Some);
        }
        let ticket = &tickets[i];
        match &ticket.coordination {
            Some(co) => {
                out.push(
                    CoordinationTicket {
                        id: ticket.id.clone(),
                        title: ticket.title.clone(),
                        handoffs: co.handoffs.len(),
                        approvals: co.approvals.len(),
                        blockers: clone_strings(&co.blockers),
                    },
                );
            },
            None => {},
        }
        i = i + 1;
    }
    assert(tickets@.subrange(0, tickets@.len() as int) =~= tickets@);
    CoordinationView { tickets: out }
}

} // verus!
