//! The order in which a store lists its tickets: by identifier text.
use vstd::prelude::*;

use crate::model::TicketId;
use crate::store::{distinct_ids, has_id, names_ticket, ticket_ids_from_names};

verus! {

/// Whether `a` comes before `b` in the lexicographic order of their characters.
pub open spec fn text_less(a: Seq<char>, b: Seq<char>) -> bool
    decreases a.len(),
{
    if a.len() == 0 {
        b.len() > 0
    } else if b.len() == 0 {
        false
    } else if a[0] != b[0] {
        (a[0] as int) < (b[0] as int)
    } else {
        text_less(a.drop_first(), b.drop_first())
    }
}

/// Whether the identifiers of `ids` are in strictly increasing text order.
pub open spec fn sorted_ids(ids: Seq<TicketId>) -> bool {
    forall|i: int, j: int| 0 <= i < j < ids.len() ==> text_less(#[trigger] ids[i]@, #[trigger] ids[j]@)
}

proof fn lemma_text_less_irreflexive(a: Seq<char>)
    ensures
        !text_less(a, a),
    decreases a.len(),
{
    if a.len() > 0 {
        lemma_text_less_irreflexive(a.drop_first());
    }
}

proof fn lemma_text_less_transitive(a: Seq<char>, b: Seq<char>, c: Seq<char>)
    requires
        text_less(a, b),
        text_less(b, c),
    ensures
        text_less(a, c),
    decreases a.len(),
{
    if a.len() > 0 && b.len() > 0 && c.len() > 0 && a[0] == b[0] && b[0] == c[0] {
        lemma_text_less_transitive(a.drop_first(), b.drop_first(), c.drop_first());
    }
}

proof fn lemma_text_less_total(a: Seq<char>, b: Seq<char>)
    requires
        a != b,
    ensures
        text_less(a, b) || text_less(b, a),
    decreases a.len(),
{
    if a.len() > 0 && b.len() > 0 && a[0] == b[0] {
        if a.drop_first() == b.drop_first() {
            assert(a =~= seq![a[0]] + a.drop_first());
            assert(b =~= seq![b[0]] + b.drop_first());
        }
        lemma_text_less_total(a.drop_first(), b.drop_first());
    } else if a.len() > 0 && b.len() > 0 {
        assert((a[0] as int) != (b[0] as int));
    } else if a.len() == 0 && b.len() == 0 {
        assert(a =~= b);
    }
}

/// Whether `a` comes before `b` in text order.
pub fn text_lt(a: &str, b: &str) -> (res: bool)
    ensures
        res == text_less(a@, b@),
{
    let n = a.unicode_len();
    let m = b.unicode_len();
    let mut i: usize = 0;
    assert(a@.subrange(0, n as int) =~= a@);
    assert(b@.subrange(0, m as int) =~= b@);
    while i < n && i < m
        invariant
            n == a@.len(),
            m == b@.len(),
            i <= n,
            i <= m,
            text_less(a@, b@) == text_less(
                a@.subrange(i as int, n as int),
                b@.subrange(i as int, m as int),
            ),
        decreases n - i,
    {
        let x = a.get_char(i);
        let y = b.get_char(i);
        let ghost sa = a@.subrange(i as int, n as int);
        let ghost sb = b@.subrange(i as int, m as int);
        assert(sa[0] == x && sb[0] == y);
        if x != y {
            return (x as u32) < (y as u32);
        }
        assert(sa.drop_first() =~= a@.subrange(i + 1, n as int));
        assert(sb.drop_first() =~= b@.subrange(i + 1, m as int));
        i = i + 1;
    }
    i == n && i < m
}

/// `ids` in increasing text order of their identifiers.
pub fn sort_ids(ids: Vec<TicketId>) -> (res: Vec<TicketId>)
    requires
        distinct_ids(ids@),
    ensures
        sorted_ids(res@),
        res@.len() == ids@.len(),
        forall|k: Seq<char>| has_id(res@, k) <==> has_id(ids@, k),
{
    let ghost all = ids@;
    let n = ids.len();
    let mut rest = ids;
    let mut out: Vec<TicketId> = Vec::new();
    let mut i: usize = 0;
    while i < n
        invariant
            n == all.len(),
            i <= n,
            distinct_ids(all),
            rest@ == all.subrange(i as int, n as int),
            out@.len() == i,
            sorted_ids(out@),
            forall|k: Seq<char>| has_id(out@, k) <==> has_id(all.subrange(0, i as int), k),
        decreases n - i,
    {
        assert(rest@[0] == all[i as int]);
        let id = rest.remove(0);
        assert(rest@ =~= all.subrange(i + 1, n as int));
        // The new identifier is not yet among the sorted ones.
        assert(!has_id(out@, id@)) by {
            if has_id(out@, id@) {
                let j = choose|j: int| 0 <= j < i && #[trigger] all.subrange(0, i as int)[j]@ == id@;
                assert(all[j]@ == all[i as int]@);
            }
        }
        let mut pos: usize = 0;
        while pos < out.len() && !text_lt(id.as_str(), out[pos].as_str())
            invariant
                pos <= out@.len(),
                forall|j: int| 0 <= j < pos ==> text_less(#[trigger] out@[j]@, id@),
                !has_id(out@, id@),
            decreases out@.len() - pos,
        {
            proof {
                assert(out@[pos as int]@ != id@);
                lemma_text_less_total(out@[pos as int]@, id@);
            }
            pos = pos + 1;
        }
        let ghost before = out@;
        proof {
            assert forall|j: int| pos <= j < before.len() implies text_less(
                id@,
                #[trigger] before[j]@,
            ) by {
                if j > pos {
                    lemma_text_less_transitive(id@, before[pos as int]@, before[j]@);
                }
            }
        }
        out.insert(pos, id);
        proof {
            let x = out@[pos as int];
            assert(x@ == all[i as int]@);
            assert forall|a: int, b: int|
                0 <= a < b < out@.len() implies text_less(#[trigger] out@[a]@, #[trigger] out@[b]@) by {
                if b < pos {
                    assert(out@[a] == before[a] && out@[b] == before[b]);
                } else if b == pos {
                    assert(out@[a] == before[a]);
                } else if a < pos {
                    assert(out@[a] == before[a] && out@[b] == before[b - 1]);
                    lemma_text_less_transitive(before[a]@, x@, before[b - 1]@);
                } else if a == pos {
                    assert(out@[b] == before[b - 1]);
                } else {
                    assert(out@[a] == before[a - 1] && out@[b] == before[b - 1]);
                }
            }
            assert forall|k: Seq<char>|
                has_id(out@, k) <==> has_id(all.subrange(0, i + 1), k) by {
                assert(all.subrange(0, i + 1) =~= all.subrange(0, i as int).push(all[i as int]));
                if has_id(out@, k) {
                    let j = choose|j: int| 0 <= j < out@.len() && #[trigger] out@[j]@ == k;
                    if j < pos {
                        assert(out@[j] == before[j]);
                        assert(has_id(before, k));
                    } else if j > pos {
                        assert(out@[j] == before[j - 1]);
                        assert(has_id(before, k));
                    }
                    if has_id(before, k) {
                        let m = choose|m: int| 0 <= m < i && #[trigger] all.subrange(0, i as int)[m]@ == k;
                        assert(all.subrange(0, i + 1)[m] == all.subrange(0, i as int)[m]);
                    } else {
                        assert(all.subrange(0, i + 1)[i as int]@ == k);
                    }
                }
                if has_id(all.subrange(0, i + 1), k) {
                    let m = choose|m: int| 0 <= m < i + 1 && #[trigger] all.subrange(0, i + 1)[m]@ == k;
                    if m < i {
                        assert(all.subrange(0, i as int)[m] == all.subrange(0, i + 1)[m]);
                        assert(has_id(before, k));
                        let j = choose|j: int| 0 <= j < before.len() && #[trigger] before[j]@ == k;
                        if j < pos {
                            assert(out@[j] == before[j]);
                        } else {
                            assert(out@[j + 1] == before[j]);
                        }
                    } else {
                        assert(out@[pos as int]@ == k);
                    }
                }
            }
        }
        i = i + 1;
    }
    assert(all.subrange(0, n as int) =~= all);
    out
}

/// The tickets of a directory listing in the order the store lists them:
/// every identifier that a name `<id>.json` gives, once, in increasing text
/// order.
pub fn ids_in_listing_order(names: &Vec<String>) -> (res: Vec<TicketId>)
    ensures
        sorted_ids(res@),
        forall|k: Seq<char>| has_id(res@, k) <==> names_ticket(names@, k),
{
    sort_ids(ticket_ids_from_names(names))
}

} // verus!
