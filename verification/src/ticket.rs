//! Tickets, their creation input, their index summaries and the index.
use vstd::prelude::*;

use crate::model::{
    Artifact, CoordinationSection, CurrentState, EvidenceSection, ExecutionSection, ExtraFields,
    LinkMap, LocalSection, LogEntry, MemorySection, SharedSection, TicketId, TicketSource,
    TicketStatus,
};
use crate::text::owned;

verus! {

/// A ticket as it is stored.
#[derive(Debug)]
pub struct Ticket {
    pub id: TicketId,
    pub title: String,
    pub status: TicketStatus,
    pub priority: String,
    pub ticket_type: String,
    pub source: Option<TicketSource>,
    pub goal: String,
    pub acceptance: Vec<String>,
    pub tags: Vec<String>,
    pub artifacts: Vec<Artifact>,
    pub links: LinkMap,
    pub parent: Option<String>,
    pub children: Vec<String>,
    pub assignee: String,
    pub created: String,
    pub updated: String,
    pub closed: Option<String>,
    pub log: Vec<LogEntry>,
    pub current: Option<CurrentState>,
    pub shared: Option<SharedSection>,
    pub coordination: Option<CoordinationSection>,
    pub evidence: Option<EvidenceSection>,
    pub execution: Option<ExecutionSection>,
    pub memory: Option<MemorySection>,
    pub local: Option<LocalSection>,
    pub extra: ExtraFields,
}

/// What a caller supplies to create a ticket.
#[derive(Debug)]
pub struct CreateTicket {
    pub title: String,
    pub ticket_type: String,
    pub priority: String,
    pub goal: String,
    pub parent: Option<String>,
    pub assignee: String,
    pub acceptance: Vec<String>,
    pub tags: Vec<String>,
    pub source: Option<TicketSource>,
}

/// The priority a ticket gets when none is given.
pub fn default_priority() -> (res: String)
    ensures
        res@ == "medium"@,
{
    owned("medium")
}

/// The type a ticket gets when none is given.
pub fn default_ticket_type() -> (res: String)
    ensures
        res@ == "chore"@,
{
    owned("chore")
}

/// The assignee a ticket gets when none is given.
pub fn default_assignee() -> (res: String)
    ensures
        res@ == "iyen"@,
{
    owned("iyen")
}

/// The index format version a new index gets.
pub fn default_index_version() -> (res: u32)
    ensures
        res == 1,
{
    1
}

impl CreateTicket {
    /// Creation input with only a title; every other field takes its default.
    pub fn new(title: String) -> (res: CreateTicket)
        ensures
            res.title == title,
            res.ticket_type@ == "chore"@,
            res.priority@ == "medium"@,
            res.goal@.len() == 0,
            res.parent is None,
            res.assignee@ == "iyen"@,
            res.acceptance@.len() == 0,
            res.tags@.len() == 0,
            res.source is None,
    {
        CreateTicket {
            title,
            ticket_type: default_ticket_type(),
            priority: default_priority(),
            goal: String::new(),
            parent: None,
            assignee: default_assignee(),
            acceptance: Vec::new(),
            tags: Vec::new(),
            source: None,
        }
    }
}

/// Whether `t` is the ticket that `Ticket::new(id, input, now)` builds.
pub open spec fn is_new_ticket(t: Ticket, id: TicketId, input: CreateTicket, now: String) -> bool {
    &&& t.id == id
    &&& t.title == input.title
    &&& t.status == TicketStatus::Open
    &&& t.priority == input.priority
    &&& t.ticket_type == input.ticket_type
    &&& t.source == input.source
    &&& t.goal == input.goal
    &&& t.acceptance == input.acceptance
    &&& t.tags == input.tags
    &&& t.artifacts@.len() == 0
    &&& t.links.github_issues@.len() == 0
    &&& t.links.prs@.len() == 0
    &&& t.links.threads@.len() == 0
    &&& t.links.cron_jobs@.len() == 0
    &&& t.links.extra@.len() == 0
    &&& t.parent == input.parent
    &&& t.children@.len() == 0
    &&& t.assignee == input.assignee
    &&& t.created == now
    &&& t.updated == now
    &&& t.closed is None
    &&& t.log@.len() == 0
    &&& t.current is None
    &&& t.shared is None
    &&& t.coordination is None
    &&& t.evidence is None
    &&& t.execution is None
    &&& t.memory is None
    &&& t.local is None
    &&& t.extra@.len() == 0
}

impl Ticket {
    /// A fresh open ticket with identifier `id`, built from `input`, created at `now`.
    pub fn new(id: TicketId, input: CreateTicket, now: String) -> (res: Ticket)
        ensures
            is_new_ticket(res, id, input, now),
    {
        Ticket {
            id,
            title: input.title,
            status: TicketStatus::Open,
            priority: input.priority,
            ticket_type: input.ticket_type,
            source: input.source,
            goal: input.goal,
            acceptance: input.acceptance,
            tags: input.tags,
            artifacts: Vec::new(),
            links: LinkMap::empty(),
            parent: input.parent,
            children: Vec::new(),
            assignee: input.assignee,
            created: now.clone(),
            updated: now,
            closed: None,
            log: Vec::new(),
            current: None,
            shared: None,
            coordination: None,
            evidence: None,
            execution: None,
            memory: None,
            local: None,
            extra: Vec::new(),
        }
    }

    /// The index summary of this ticket.
    pub fn summary(&self) -> (res: TicketSummary)
        ensures
            is_summary_of(res, *self),
    {
        TicketSummary {
            title: self.title.clone(),
            status: self.status,
            priority: self.priority.clone(),
            ticket_type: self.ticket_type.clone(),
            updated: self.updated.clone(),
            extra: Vec::new(),
        }
    }
}

/// The entry that the index keeps for an active ticket.
#[derive(Debug)]
pub struct TicketSummary {
    pub title: String,
    pub status: TicketStatus,
    pub priority: String,
    pub ticket_type: String,
    pub updated: String,
    pub extra: ExtraFields,
}

/// Whether `s` summarizes `t`.
pub open spec fn is_summary_of(s: TicketSummary, t: Ticket) -> bool {
    &&& s.title == t.title
    &&& s.status == t.status
    &&& s.priority == t.priority
    &&& s.ticket_type == t.ticket_type
    &&& s.updated == t.updated
    &&& s.extra@.len() == 0
}

// ---------------------------------------------------------------------------
// The index of active tickets
// ---------------------------------------------------------------------------
/// The map that a list of index entries stands for; a later entry for the
/// same identifier replaces an earlier one.
pub open spec fn entries_map(s: Seq<(TicketId, TicketSummary)>) -> Map<Seq<char>, TicketSummary>
    decreases s.len(),
{
    if s.len() == 0 {
        Map::empty()
    } else {
        entries_map(s.drop_last()).insert(s.last().0@, s.last().1)
    }
}

/// The index of active tickets and the last identifier handed out.
#[derive(Debug)]
pub struct TicketIndex {
    pub version: u32,
    pub last_id: Option<TicketId>,
    pub tickets: Vec<(TicketId, TicketSummary)>,
    pub extra: ExtraFields,
}

proof fn lemma_entries_map_absent(s: Seq<(TicketId, TicketSummary)>, k: Seq<char>)
    requires
        forall|j: int| 0 <= j < s.len() ==> s[j].0@ != k,
    ensures
        !entries_map(s).contains_key(k),
    decreases s.len(),
{
    if s.len() > 0 {
        lemma_entries_map_absent(s.drop_last(), k);
    }
}

proof fn lemma_entries_map_last(s: Seq<(TicketId, TicketSummary)>, k: Seq<char>, j: int)
    requires
        0 <= j < s.len(),
        s[j].0@ == k,
        forall|m: int| j < m < s.len() ==> s[m].0@ != k,
    ensures
        entries_map(s).contains_key(k),
        entries_map(s)[k] == s[j].1,
    decreases s.len(),
{
    if j < s.len() - 1 {
        lemma_entries_map_last(s.drop_last(), k, j);
    }
}

proof fn lemma_entries_map_remove(s: Seq<(TicketId, TicketSummary)>, i: int, k: Seq<char>)
    requires
        0 <= i < s.len(),
        s[i].0@ == k,
    ensures
        entries_map(s.remove(i)).remove(k) == entries_map(s).remove(k),
    decreases s.len(),
{
    let n = s.len();
    if i == n - 1 {
        assert(s.remove(i) =~= s.drop_last());
        assert(entries_map(s.drop_last()).remove(k) =~= entries_map(s).remove(k));
    } else {
        let t = s.drop_last();
        lemma_entries_map_remove(t, i, k);
        assert(s.remove(i) =~= t.remove(i).push(s.last()));
        assert(s.remove(i).drop_last() =~= t.remove(i));
        let lk = s.last().0@;
        let lv = s.last().1;
        assert(entries_map(s.remove(i)) == entries_map(t.remove(i)).insert(lk, lv));
        assert(entries_map(s) == entries_map(t).insert(lk, lv));
        let a = entries_map(t.remove(i));
        let b = entries_map(t);
        assert(a.remove(k) == b.remove(k));
        if lk == k {
            assert(a.insert(lk, lv).remove(k) =~= a.remove(k));
            assert(b.insert(lk, lv).remove(k) =~= b.remove(k));
        } else {
            assert(a.insert(lk, lv).remove(k) =~= a.remove(k).insert(lk, lv));
            assert(b.insert(lk, lv).remove(k) =~= b.remove(k).insert(lk, lv));
        }
    }
}

impl TicketIndex {
    /// The identifiers and summaries that this index holds.
    pub open spec fn tickets_map(&self) -> Map<Seq<char>, TicketSummary> {
        entries_map(self.tickets@)
    }

    /// An empty index of the current format version.
    pub fn new_default() -> (res: TicketIndex)
        ensures
            res.version == 1,
            res.last_id is None,
            res.tickets_map() == Map::<Seq<char>, TicketSummary>::empty(),
            res.extra@.len() == 0,
    {
        TicketIndex {
            version: default_index_version(),
            last_id: None,
            tickets: Vec::new(),
            extra: Vec::new(),
        }
    }

    /// The summary kept for `id`, if any.
    pub fn get(&self, id: &TicketId) -> (res: Option<&TicketSummary>)
        ensures
            res is Some <==> self.tickets_map().contains_key(id@),
            res matches Some(s) ==> *s == self.tickets_map()[id@],
    {
        let n = self.tickets.len();
        let mut i: usize = n;
        while i > 0
            invariant
                n == self.tickets@.len(),
                i <= n,
                forall|m: int| i <= m < n ==> self.tickets@[m].0@ != id@,
            decreases i,
        {
            if self.tickets[i - 1].0.same_as(id) {
                proof {
                    lemma_entries_map_last(self.tickets@, id@, i - 1);
                }
                return Some(&self.tickets[i - 1].1);
            }
            i = i - 1;
        }
        proof {
            lemma_entries_map_absent(self.tickets@, id@);
        }
        None
    }

    /// Whether the index holds `id`.
    pub fn contains_key(&self, id: &TicketId) -> (res: bool)
        ensures
            res == self.tickets_map().contains_key(id@),
    {
        self.get(id).is_some()
    }

    /// Drops the entry for `id`.
    pub fn forget(&mut self, id: &TicketId)
        ensures
            final(self).tickets_map() == old(self).tickets_map().remove(id@),
            final(self).version == old(self).version,
            final(self).last_id == old(self).last_id,
            final(self).extra == old(self).extra,
    {
        let ghost before = self.tickets@;
        let mut i: usize = 0;
        while i < self.tickets.len()
            invariant
                i <= self.tickets@.len(),
                forall|m: int| 0 <= m < i ==> self.tickets@[m].0@ != id@,
                entries_map(self.tickets@).remove(id@) == entries_map(before).remove(id@),
                self.version == old(self).version,
                self.last_id == old(self).last_id,
                self.extra == old(self).extra,
            decreases self.tickets@.len() - i,
        {
            if self.tickets[i].0.same_as(id) {
                proof {
                    lemma_entries_map_remove(self.tickets@, i as int, id@);
                }
                self.tickets.remove(i);
            } else {
                i = i + 1;
            }
        }
        proof {
            lemma_entries_map_absent(self.tickets@, id@);
            assert(entries_map(self.tickets@) =~= entries_map(self.tickets@).remove(id@));
        }
    }

    /// Keeps `summary` as the entry for `id`, replacing any earlier one.
    pub fn record(&mut self, id: TicketId, summary: TicketSummary)
        ensures
            final(self).tickets_map() == old(self).tickets_map().insert(id@, summary),
            final(self).version == old(self).version,
            final(self).last_id == old(self).last_id,
            final(self).extra == old(self).extra,
    {
        self.forget(&id);
        let ghost before = self.tickets@;
        self.tickets.push((id, summary));
        assert(self.tickets@.drop_last() =~= before);
        assert(self.tickets_map() =~= old(self).tickets_map().insert(id@, summary));
    }
}

impl Default for TicketIndex {
    fn default() -> (res: Self)
        ensures
            res.version == 1,
            res.last_id is None,
            res.tickets_map() == Map::<Seq<char>, TicketSummary>::empty(),
            res.extra@.len() == 0,
    {
        TicketIndex::new_default()
    }
}

} // verus!

verus! {

/// Whether `b` keeps everything of `a` that only creation sets: identity,
/// description, ownership, creation time and the carried sections.
pub open spec fn same_identity(a: Ticket, b: Ticket) -> bool {
    &&& a.id == b.id
    &&& a.title == b.title
    &&& a.priority == b.priority
    &&& a.ticket_type == b.ticket_type
    &&& a.source == b.source
    &&& a.goal == b.goal
    &&& a.acceptance == b.acceptance
    &&& a.tags == b.tags
    &&& a.parent == b.parent
    &&& a.children == b.children
    &&& a.assignee == b.assignee
    &&& a.created == b.created
    &&& a.shared == b.shared
    &&& a.execution == b.execution
    &&& a.memory == b.memory
    &&& a.local == b.local
    &&& a.extra == b.extra
}

/// Whether `a` is an artifact of `kind_text` holding `value`, stamped `ts`.
pub open spec fn is_artifact(a: Artifact, kind_text: Seq<char>, value: String, ts: String) -> bool {
    &&& a.artifact_type@ == kind_text
    &&& a.value == value
    &&& a.ts == ts
    &&& a.extra@.len() == 0
}

} // verus!
