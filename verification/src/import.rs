//! Importing the tickets of another store: duplicate and collision checks,
//! archive placement, the new index and the import events.
use vstd::prelude::*;

use crate::error::TicketFlowError;
use crate::event::{is_event_header, EventEnvelope, EventPayload, TICKET_IMPORTED};
use crate::model::{TicketId, TicketStatus};
use crate::store::{
    archive_month_from_timestamp, contains_id, has_id, month_of_timestamp, TicketStore,
};
use crate::text::{decimal, decimal_string, owned};
use crate::ticket::{is_summary_of, Ticket, TicketIndex, TicketSummary};

verus! {

/// How many tickets an import brought, and where they went.
#[derive(Debug, Clone, Copy, PartialEq, Eq, Structural)]
pub struct ImportTicketStoreSummary {
    pub imported: usize,
    pub active: usize,
    pub archived: usize,
}

/// The report line of an import: `imported N ticket(s): active=A archived=B`.
pub open spec fn summary_line_text(s: ImportTicketStoreSummary) -> Seq<char> {
    "imported "@ + decimal(s.imported as nat) + " ticket(s): active="@ + decimal(s.active as nat)
        + " archived="@ + decimal(s.archived as nat)
}

impl ImportTicketStoreSummary {
    /// The report line of this import.
    pub fn line(&self) -> (res: String)
        ensures
            res@ == summary_line_text(*self),
    {
        let mut s = owned("imported ");
        s.append(decimal_string(self.imported as u64).as_str());
        s.append(" ticket(s): active=");
        s.append(decimal_string(self.active as u64).as_str());
        s.append(" archived=");
        s.append(decimal_string(self.archived as u64).as_str());
        s
    }
}

/// A ticket read from the source store, with the archive month directory it
/// was found in, if any.
#[derive(Debug)]
pub struct SourceTicket {
    pub ticket: Ticket,
    pub source_archive_month: Option<String>,
}

/// The identifier of a source ticket.
pub open spec fn src_id(s: SourceTicket) -> Seq<char> {
    s.ticket.id@
}

/// Whether the `i`-th source ticket repeats the identifier of an earlier one.
pub open spec fn repeats_earlier(src: Seq<SourceTicket>, i: int) -> bool {
    exists|j: int| 0 <= j < i && #[trigger] src_id(src[j]) == src_id(src[i])
}

/// Whether no identifier occurs twice among the source tickets.
pub open spec fn distinct_sources(src: Seq<SourceTicket>) -> bool {
    forall|i: int| 0 <= i < src.len() ==> !#[trigger] repeats_earlier(src, i)
}

/// Whether the `i`-th source ticket's identifier is among `dest`.
pub open spec fn collides(src: Seq<SourceTicket>, dest: Seq<TicketId>, i: int) -> bool {
    has_id(dest, src_id(src[i]))
}

/// Whether no source identifier is among `dest`.
pub open spec fn no_collision(src: Seq<SourceTicket>, dest: Seq<TicketId>) -> bool {
    forall|i: int| 0 <= i < src.len() ==> !#[trigger] collides(src, dest, i)
}

/// Whether `e` names the first source ticket that repeats an earlier identifier.
pub open spec fn names_first_repeat(src: Seq<SourceTicket>, e: TicketFlowError) -> bool {
    exists|i: int|
        0 <= i < src.len() && #[trigger] repeats_earlier(src, i) && (forall|j: int|
            0 <= j < i ==> !#[trigger] repeats_earlier(src, j)) && (
        e matches TicketFlowError::DuplicateSourceTicket(s) && s@ == src_id(src[i]))
}

/// Whether `e` names the first source ticket whose identifier is among `dest`.
pub open spec fn names_first_collision(
    src: Seq<SourceTicket>,
    dest: Seq<TicketId>,
    e: TicketFlowError,
) -> bool {
    exists|i: int|
        0 <= i < src.len() && #[trigger] collides(src, dest, i) && (forall|j: int|
            0 <= j < i ==> !#[trigger] collides(src, dest, j)) && (
        e matches TicketFlowError::DuplicateDestinationTicket(s) && s@ == src_id(src[i]))
}

/// Fails on the first source ticket whose identifier an earlier one already has.
pub fn reject_duplicate_sources(sources: &Vec<SourceTicket>) -> (res: Result<(), TicketFlowError>)
    ensures
        res is Ok <==> distinct_sources(sources@),
        res matches Err(e) ==> names_first_repeat(sources@, e),
{
    let n = sources.len();
    let mut i: usize = 0;
    while i < n
        invariant
            n == sources@.len(),
            i <= n,
            forall|a: int| 0 <= a < i ==> !#[trigger] repeats_earlier(sources@, a),
        decreases n - i,
    {
        let mut j: usize = 0;
        while j < i
            invariant
                n == sources@.len(),
                j <= i < n,
                forall|a: int| 0 <= a < i ==> !#[trigger] repeats_earlier(sources@, a),
                forall|b: int| 0 <= b < j ==> src_id(sources@[b]) != src_id(sources@[i as int]),
            decreases i - j,
        {
            if sources[j].ticket.id.same_as(&sources[i].ticket.id) {
                assert(src_id(sources@[j as int]) == src_id(sources@[i as int]));
                assert(repeats_earlier(sources@, i as int));
                let text = sources[i].ticket.id.to_text();
                assert(text@ == src_id(sources@[i as int]));
                return Err(TicketFlowError::DuplicateSourceTicket(text));
            }
            j = j + 1;
        }
        assert(!repeats_earlier(sources@, i as int));
        i = i + 1;
    }
    Ok(())
}

/// Fails on the first source ticket whose identifier the destination store
/// already holds (`dest`: the identifiers of its active and archived tickets).
pub fn reject_destination_collisions(sources: &Vec<SourceTicket>, dest: &Vec<TicketId>) -> (res:
    Result<(), TicketFlowError>)
    ensures
        res is Ok <==> no_collision(sources@, dest@),
        res matches Err(e) ==> names_first_collision(sources@, dest@, e),
{
    let n = sources.len();
    let mut i: usize = 0;
    while i < n
        invariant
            n == sources@.len(),
            i <= n,
            forall|a: int| 0 <= a < i ==> !#[trigger] collides(sources@, dest@, a),
        decreases n - i,
    {
        if contains_id(dest, &sources[i].ticket.id) {
            assert(collides(sources@, dest@, i as int));
            return Err(
                TicketFlowError::DuplicateDestinationTicket(sources[i].ticket.id.to_text()),
            );
        }
        i = i + 1;
    }
    Ok(())
}

/// The month an imported done ticket is archived under: that of its `closed`
/// stamp, else the month directory it came from, else that of its `updated`
/// stamp, else `unknown`.
pub open spec fn import_month(
    closed: Option<String>,
    source_month: Option<String>,
    updated: Seq<char>,
) -> Seq<char> {
    match closed {
        Some(c) if month_of_timestamp(c@) is Some => month_of_timestamp(c@)->0,
        _ => match source_month {
            Some(m) => m@,
            None => match month_of_timestamp(updated) {
                Some(m) => m,
                None => "unknown"@,
            },
        },
    }
}

/// The archive month of an imported done ticket.
pub fn archive_month(source: &SourceTicket) -> (res: String)
    ensures
        res@ == import_month(
            source.ticket.closed,
            source.source_archive_month,
            source.ticket.updated@,
        ),
{
    let from_closed = match &source.ticket.closed {
        Some(c) => archive_month_from_timestamp(c.as_str()),
        None => None,
    };
    match from_closed {
        Some(m) => m,
        None => match &source.source_archive_month {
            Some(m) => m.clone(),
            None => match archive_month_from_timestamp(source.ticket.updated.as_str()) {
                Some(m) => m,
                None => owned("unknown"),
            },
        },
    }
}

/// The number of done tickets among `src`.
pub open spec fn done_count(src: Seq<SourceTicket>) -> nat
    decreases src.len(),
{
    if src.len() == 0 {
        0
    } else {
        done_count(src.drop_last()) + if src.last().ticket.status == TicketStatus::Done {
            1nat
        } else {
            0nat
        }
    }
}

/// The number of tickets among `src` that are not done.
pub open spec fn active_count(src: Seq<SourceTicket>) -> nat
    decreases src.len(),
{
    if src.len() == 0 {
        0
    } else {
        active_count(src.drop_last()) + if src.last().ticket.status == TicketStatus::Done {
            0nat
        } else {
            1nat
        }
    }
}

/// Whether some source ticket has identifier `k`.
pub open spec fn imports_id(src: Seq<SourceTicket>, k: Seq<char>) -> bool {
    exists|i: int| 0 <= i < src.len() && #[trigger] src_id(src[i]) == k
}

/// Whether some source ticket that is not done has identifier `k`.
pub open spec fn imports_active(src: Seq<SourceTicket>, k: Seq<char>) -> bool {
    exists|i: int|
        0 <= i < src.len() && #[trigger] src_id(src[i]) == k && src[i].ticket.status
            != TicketStatus::Done
}

/// An imported ticket, the event that records its import, and the month it is
/// archived under when it is done.
#[derive(Debug)]
pub struct ImportedTicket {
    pub ticket: Ticket,
    pub event: EventEnvelope,
    pub archive_month: Option<String>,
}

/// What an import writes: each ticket with its event and place, the new
/// index, and the counts.
#[derive(Debug)]
pub struct ImportPlan {
    pub tickets: Vec<ImportedTicket>,
    pub index: TicketIndex,
    pub summary: ImportTicketStoreSummary,
}

/// Whether `e` is the import event of ticket `id` from `root`.
pub open spec fn is_import_event(e: EventEnvelope, id: TicketId, root: Seq<char>) -> bool {
    &&& is_event_header(e, id, TICKET_IMPORTED@)
    &&& e.payload matches EventPayload::Imported { source_root } && source_root@ == root
}

/// Whether `out` places `s`, imported from `root`.
pub open spec fn places(out: ImportedTicket, s: SourceTicket, root: Seq<char>) -> bool {
    &&& out.ticket == s.ticket
    &&& is_import_event(out.event, s.ticket.id, root)
    &&& if s.ticket.status == TicketStatus::Done {
        out.archive_month matches Some(m) && m@ == import_month(
            s.ticket.closed,
            s.source_archive_month,
            s.ticket.updated@,
        )
    } else {
        out.archive_month is None
    }
}

/// Whether `new` is the index `old` after importing `src`: the tickets that
/// are not done are entered with their summaries, the done ones leave it, and
/// the other entries stay as they were.
pub open spec fn is_import_index(
    old: Map<Seq<char>, TicketSummary>,
    new: Map<Seq<char>, TicketSummary>,
    src: Seq<SourceTicket>,
) -> bool {
    &&& forall|k: Seq<char>|
        #[trigger] new.contains_key(k) <==> (imports_active(src, k) || (old.contains_key(k)
            && !imports_id(src, k)))
    &&& forall|i: int|
        0 <= i < src.len() && src[i].ticket.status != TicketStatus::Done ==> is_summary_of(
            #[trigger] new[src_id(src[i])],
            src[i].ticket,
        )
    &&& forall|k: Seq<char>|
        !imports_id(src, k) && #[trigger] old.contains_key(k) ==> new[k] == old[k]
}

proof fn lemma_counts_split(src: Seq<SourceTicket>)
    ensures
        done_count(src) + active_count(src) == src.len(),
    decreases src.len(),
{
    if src.len() > 0 {
        lemma_counts_split(src.drop_last());
    }
}

impl TicketStore {
    /// Plans the import of `sources`, read from the store at `source_root`,
    /// into a store whose index is `index` and whose active and archived
    /// tickets have the identifiers `dest`. Fails on a duplicate source
    /// identifier first, then on one the destination already holds; nothing
    /// is written on failure.
    pub fn plan_import(
        &self,
        source_root: &str,
        sources: Vec<SourceTicket>,
        index: TicketIndex,
        dest: &Vec<TicketId>,
    ) -> (res: Result<ImportPlan, TicketFlowError>)
        ensures
            !distinct_sources(sources@) ==> (res matches Err(e) && names_first_repeat(
                sources@,
                e,
            )),
            distinct_sources(sources@) && !no_collision(sources@, dest@) ==> (res matches Err(e)
                && names_first_collision(sources@, dest@, e)),
            res is Ok <==> distinct_sources(sources@) && no_collision(sources@, dest@),
            res matches Ok(plan) ==> {
                &&& plan.tickets@.len() == sources@.len()
                &&& forall|i: int|
                    0 <= i < sources@.len() ==> #[trigger] places(
                        plan.tickets@[i],
                        sources@[i],
                        source_root@,
                    )
                &&& is_import_index(index.tickets_map(), plan.index.tickets_map(), sources@)
                &&& plan.index.last_id == index.last_id
                &&& plan.index.version == index.version
                &&& plan.summary.imported == sources@.len()
                &&& plan.summary.active == active_count(sources@)
                &&& plan.summary.archived == done_count(sources@)
            },
    {
        match reject_duplicate_sources(&sources) {
            Ok(()) => {},
            Err(e) => {
                return Err(e);
            },
        }
        match reject_destination_collisions(&sources, dest) {
            Ok(()) => {},
            Err(e) => {
                return Err(e);
            },
        }
        let ghost src = sources@;
        let ghost old_map = index.tickets_map();
        let ghost old_last = index.last_id;
        let ghost old_version = index.version;
        let n = sources.len();
        let mut rest = sources;
        let mut index = index;
        let mut out: Vec<ImportedTicket> = Vec::new();
        let mut active: usize = 0;
        let mut archived: usize = 0;
        let mut i: usize = 0;
        while i < n
            invariant
                n == src.len(),
                i <= n,
                distinct_sources(src),
                rest@ == src.subrange(i as int, n as int),
                out@.len() == i,
                forall|j: int| 0 <= j < i ==> #[trigger] places(out@[j], src[j], source_root@),
                is_import_index(old_map, index.tickets_map(), src.subrange(0, i as int)),
                index.last_id == old_last,
                index.version == old_version,
                active == active_count(src.subrange(0, i as int)),
                archived == done_count(src.subrange(0, i as int)),
                active + archived == i,
            decreases n - i,
        {
            let ghost pre = src.subrange(0, i as int);
            let ghost post = src.subrange(0, i + 1);
            let ghost before = index.tickets_map();
            proof {
                assert(post.drop_last() =~= pre);
                assert(post.last() == src[i as int]);
                assert(rest@[0] == src[i as int]);
            }
            let source = rest.remove(0);
            assert(rest@ =~= src.subrange(i + 1, n as int));
            let id = source.ticket.id.clone();
            let event = EventEnvelope::new(
                id.clone(),
                TICKET_IMPORTED,
                EventPayload::Imported { source_root: owned(source_root) },
            );
            let month = if source.ticket.status == TicketStatus::Done {
                let m = archive_month(&source);
                index.forget(&id);
                archived = archived + 1;
                Some(m)
            } else {
                let summary = source.ticket.summary();
                index.record(id, summary);
                active = active + 1;
                None
            };
            proof {
                let k0 = src_id(src[i as int]);
                let after = index.tickets_map();
                assert(src_id(post[i as int]) == k0);
                // The identifier of the new ticket occurs nowhere earlier.
                assert forall|j: int| 0 <= j < i implies src_id(src[j]) != k0 by {
                    if src_id(src[j]) == k0 {
                        assert(repeats_earlier(src, i as int));
                    }
                }
                assert forall|k: Seq<char>|
                    imports_id(post, k) <==> (imports_id(pre, k) || k == k0) by {
                    if imports_id(pre, k) {
                        let j = choose|j: int| 0 <= j < pre.len() && #[trigger] src_id(pre[j]) == k;
                        assert(post[j] == pre[j]);
                    }
                    if k == k0 {
                        assert(src_id(post[i as int]) == k);
                    }
                    if imports_id(post, k) {
                        let j = choose|j: int| 0 <= j < post.len() && #[trigger] src_id(post[j]) == k;
                        if j < i {
                            assert(pre[j] == post[j]);
                        }
                    }
                }
                assert forall|k: Seq<char>|
                    imports_active(post, k) <==> (imports_active(pre, k) || (k == k0
                        && src[i as int].ticket.status != TicketStatus::Done)) by {
                    if imports_active(pre, k) {
                        let j = choose|j: int|
                            0 <= j < pre.len() && #[trigger] src_id(pre[j]) == k
                                && pre[j].ticket.status != TicketStatus::Done;
                        assert(post[j] == pre[j]);
                    }
                    if k == k0 && src[i as int].ticket.status != TicketStatus::Done {
                        assert(src_id(post[i as int]) == k);
                    }
                    if imports_active(post, k) {
                        let j = choose|j: int|
                            0 <= j < post.len() && #[trigger] src_id(post[j]) == k
                                && post[j].ticket.status != TicketStatus::Done;
                        if j < i {
                            assert(pre[j] == post[j]);
                        }
                    }
                }
                assert forall|j: int|
                    0 <= j < post.len() && post[j].ticket.status
                        != TicketStatus::Done implies is_summary_of(
                    #[trigger] after[src_id(post[j])],
                    post[j].ticket,
                ) by {
                    if j < i {
                        assert(pre[j] == post[j]);
                        assert(src_id(post[j]) != k0);
                        assert(is_summary_of(before[src_id(pre[j])], pre[j].ticket));
                    }
                }
                assert forall|k: Seq<char>|
                    #[trigger] after.contains_key(k) <==> (imports_active(post, k) || (
                    old_map.contains_key(k) && !imports_id(post, k))) by {
                    assert(before.contains_key(k) <==> (imports_active(pre, k) || (
                    old_map.contains_key(k) && !imports_id(pre, k))));
                }
                assert forall|k: Seq<char>|
                    !imports_id(post, k) && #[trigger] old_map.contains_key(
                        k,
                    ) implies after[k] == old_map[k] by {
                    assert(!imports_id(pre, k));
                    assert(before[k] == old_map[k]);
                }
            }
            out.push(ImportedTicket { ticket: source.ticket, event, archive_month: month });
            i = i + 1;
        }
        proof {
            assert(src.subrange(0, n as int) =~= src);
            lemma_counts_split(src);
        }
        Ok(
            ImportPlan {
                tickets: out,
                index,
                summary: ImportTicketStoreSummary { imported: n, active, archived },
            },
        )
    }
}

/// Every imported ticket is counted once, as active or as archived.
pub proof fn law_import_counts_add_up(src: Seq<SourceTicket>)
    ensures
        active_count(src) + done_count(src) == src.len(),
{
    lemma_counts_split(src);
}

} // verus!
