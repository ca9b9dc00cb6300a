//! The store layout (`active/`, `archive/YYYY-MM/`, `events/`, `index.json`),
//! ticket-identifier allocation and archive months.
use vstd::prelude::*;

use crate::clock::{
    is_clock_text, is_day_text, is_rfc3339_text, now_rfc3339, today_yyyymmdd, year_zero_seconds,
};
use crate::error::TicketFlowError;
use crate::event::{EventEnvelope, EventPayload, TICKET_CREATED, is_event};
use crate::model::{id_text, is_ticket_id_seq, TicketId};
use crate::text::{
    all_digits, decimal, digits_value, ends_with, has_prefix, has_suffix, join2, owned,
    parse_unsigned, parse_unsigned_spec, starts_with, zero_pad, is_digit_char, char_value,
    digit_char, unsigned_body, signed_decimal,
};
use crate::ticket::{is_new_ticket, is_summary_of, CreateTicket, Ticket, TicketIndex};

verus! {

// ---------------------------------------------------------------------------
// Paths
// ---------------------------------------------------------------------------
/// `base` joined with the relative component `comp`, as `Path::join` does it
/// on Unix: no separator is added after an empty base or one that already
/// ends with `/`.
pub open spec fn path_join(base: Seq<char>, comp: Seq<char>) -> Seq<char> {
    if base.len() == 0 {
        comp
    } else if base.last() == '/' {
        base + comp
    } else {
        base + seq!['/'] + comp
    }
}

/// `base` joined with `comp` (a relative component).
pub fn join_path(base: &str, comp: &str) -> (res: String)
    ensures
        res@ == path_join(base@, comp@),
{
    let n = base.unicode_len();
    if n == 0 {
        owned(comp)
    } else if base.get_char(n - 1) == '/' {
        join2(base, comp)
    } else {
        let mut r = join2(base, "/");
        r.append(comp);
        proof {
            reveal_strlit("/");
        }
        r
    }
}

/// Where the parts of a store live.
#[derive(Debug)]
pub struct StorePaths {
    pub root: String,
    pub active: String,
    pub archive: String,
    pub events: String,
    pub index: String,
}

/// Whether `p` is the layout of a store rooted at `root`.
pub open spec fn is_layout_of(p: StorePaths, root: Seq<char>) -> bool {
    &&& p.root@ == root
    &&& p.active@ == path_join(root, "active"@)
    &&& p.archive@ == path_join(root, "archive"@)
    &&& p.events@ == path_join(root, "events"@)
    &&& p.index@ == path_join(root, "index.json"@)
}

impl StorePaths {
    /// The layout of a store rooted at `root`.
    pub fn new(root: String) -> (res: StorePaths)
        ensures
            is_layout_of(res, root@),
            res.root == root,
    {
        let active = join_path(root.as_str(), "active");
        let archive = join_path(root.as_str(), "archive");
        let events = join_path(root.as_str(), "events");
        let index = join_path(root.as_str(), "index.json");
        StorePaths { root, active, archive, events, index }
    }

    /// The store root: `store_home` when it is given (the `TICKET_FLOW_HOME`
    /// setting), else `.ticket-flow/tickets` under the home directory.
    pub fn from_env_or_home(store_home: Option<String>, home_dir: Option<String>) -> (res: Result<
        StorePaths,
        TicketFlowError,
    >)
        ensures
            store_home matches Some(h) ==> (res matches Ok(p) && is_layout_of(p, h@)),
            store_home is None && home_dir is Some ==> (res matches Ok(p) && is_layout_of(
                p,
                path_join(path_join(home_dir->0@, ".ticket-flow"@), "tickets"@),
            )),
            store_home is None && home_dir is None ==> res matches Err(
                TicketFlowError::HomeDirectoryUnavailable,
            ),
    {
        match store_home {
            Some(root) => Ok(StorePaths::new(root)),
            None => match home_dir {
                Some(home) => {
                    let base = join_path(home.as_str(), ".ticket-flow");
                    let root = join_path(base.as_str(), "tickets");
                    Ok(StorePaths::new(root))
                },
                None => Err(TicketFlowError::HomeDirectoryUnavailable),
            },
        }
    }
}

/// A ticket store: its layout, and the rules that decide what it writes.
#[derive(Debug)]
pub struct TicketStore {
    paths: StorePaths,
}

/// The file name of a ticket in a store directory.
pub open spec fn ticket_file_name(id: Seq<char>) -> Seq<char> {
    id + ".json"@
}

impl TicketStore {
    /// The store's layout.
    pub closed spec fn layout(&self) -> StorePaths {
        self.paths
    }

    /// A store over `paths`.
    pub fn new(paths: StorePaths) -> (res: TicketStore)
        ensures
            res.layout() == paths,
    {
        TicketStore { paths }
    }

    /// The store's layout.
    pub fn paths(&self) -> (res: &StorePaths)
        ensures
            *res == self.layout(),
    {
        &self.paths
    }

    /// The path of ticket `id` in directory `dir`.
    pub fn ticket_path(&self, dir: &str, id: &TicketId) -> (res: String)
        ensures
            res@ == path_join(dir@, ticket_file_name(id@)),
    {
        let name = join2(id.as_str(), ".json");
        join_path(dir, name.as_str())
    }

    /// The path of ticket `id` in the active directory.
    pub fn active_ticket_path(&self, id: &TicketId) -> (res: String)
        ensures
            res@ == path_join(self.layout().active@, ticket_file_name(id@)),
    {
        self.ticket_path(self.paths.active.as_str(), id)
    }

    /// The path of ticket `id` in the archive directory of `month`.
    pub fn archived_month_path(&self, month: &str, id: &TicketId) -> (res: String)
        ensures
            res@ == path_join(path_join(self.layout().archive@, month@), ticket_file_name(id@)),
    {
        let dir = join_path(self.paths.archive.as_str(), month);
        self.ticket_path(dir.as_str(), id)
    }

    /// The event log file of ticket `id`.
    pub fn event_log_path(&self, id: &TicketId) -> (res: String)
        ensures
            res@ == path_join(self.layout().events@, id@ + ".ndjson"@),
    {
        let name = join2(id.as_str(), ".ndjson");
        join_path(self.paths.events.as_str(), name.as_str())
    }

    /// The places where an archived ticket `id` may be, in the order they are
    /// looked at: the flat legacy `archive/<id>.json` first, then
    /// `archive/<month>/<id>.json` for each of `months` in turn.
    pub fn archived_ticket_path(&self, id: &TicketId, months: &Vec<String>) -> (res: Vec<String>)
        ensures
            res@.len() == months@.len() + 1,
            res@[0]@ == path_join(self.layout().archive@, ticket_file_name(id@)),
            forall|i: int|
                0 <= i < months@.len() ==> #[trigger] res@[i + 1]@ == path_join(
                    path_join(self.layout().archive@, months@[i]@),
                    ticket_file_name(id@),
                ),
    {
        let mut out: Vec<String> = Vec::new();
        out.push(self.ticket_path(self.paths.archive.as_str(), id));
        let mut i: usize = 0;
        while i < months.len()
            invariant
                i <= months@.len(),
                out@.len() == i + 1,
                out@[0]@ == path_join(self.layout().archive@, ticket_file_name(id@)),
                forall|j: int|
                    0 <= j < i ==> #[trigger] out@[j + 1]@ == path_join(
                        path_join(self.layout().archive@, months@[j]@),
                        ticket_file_name(id@),
                    ),
            decreases months@.len() - i,
        {
            out.push(self.archived_month_path(months[i].as_str(), id));
            i = i + 1;
        }
        out
    }
}

// ---------------------------------------------------------------------------
// Identifier sets
// ---------------------------------------------------------------------------
/// Whether some identifier in `ids` is `k`.
pub open spec fn has_id(ids: Seq<TicketId>, k: Seq<char>) -> bool {
    exists|i: int| 0 <= i < ids.len() && ids[i]@ == k
}

/// Whether no identifier occurs twice in `ids`.
pub open spec fn distinct_ids(ids: Seq<TicketId>) -> bool {
    forall|i: int, j: int| 0 <= i < j < ids.len() ==> ids[i]@ != ids[j]@
}

/// Whether `k` names a ticket file among `names`: some name is `k.json` and `k`
/// has the ticket-id shape.
pub open spec fn names_ticket(names: Seq<String>, k: Seq<char>) -> bool {
    is_ticket_id_seq(k) && exists|j: int| 0 <= j < names.len() && names[j]@ == k + ".json"@
}

/// Whether `id` is among `ids`.
pub fn contains_id(ids: &Vec<TicketId>, id: &TicketId) -> (res: bool)
    ensures
        res == has_id(ids@, id@),
{
    let mut i: usize = 0;
    while i < ids.len()
        invariant
            i <= ids@.len(),
            forall|j: int| 0 <= j < i ==> ids@[j]@ != id@,
        decreases ids@.len() - i,
    {
        if ids[i].same_as(id) {
            return true;
        }
        i = i + 1;
    }
    false
}

proof fn lemma_has_id_push(s: Seq<TicketId>, x: TicketId, k: Seq<char>)
    ensures
        has_id(s.push(x), k) <==> (has_id(s, k) || x@ == k),
{
    if has_id(s, k) {
        let m = choose|m: int| 0 <= m < s.len() && s[m]@ == k;
        assert(s.push(x)[m] == s[m]);
    }
    if x@ == k {
        assert(s.push(x)[s.len() as int] == x);
    }
    if has_id(s.push(x), k) {
        let m = choose|m: int| 0 <= m < s.len() + 1 && s.push(x)[m]@ == k;
        if m < s.len() {
            assert(s[m] == s.push(x)[m]);
        }
    }
}

proof fn lemma_has_id_prefix_step(s: Seq<TicketId>, i: int, k: Seq<char>)
    requires
        0 <= i < s.len(),
    ensures
        has_id(s.subrange(0, i + 1), k) <==> (has_id(s.subrange(0, i), k) || s[i]@ == k),
{
    assert(s.subrange(0, i + 1) =~= s.subrange(0, i).push(s[i]));
    lemma_has_id_push(s.subrange(0, i), s[i], k);
}

/// The identifier that a file name `<id>.json` names, if it names one.
pub open spec fn file_name_id(name: Seq<char>) -> Option<Seq<char>> {
    if has_suffix(name, ".json"@) && is_ticket_id_seq(name.subrange(0, name.len() - 5)) {
        Some(name.subrange(0, name.len() - 5))
    } else {
        None
    }
}

proof fn lemma_file_name_id(name: Seq<char>, k: Seq<char>)
    ensures
        file_name_id(name) == Some(k) <==> (is_ticket_id_seq(k) && name == k + ".json"@),
{
    reveal_strlit(".json");
    if is_ticket_id_seq(k) && name == k + ".json"@ {
        assert(name.subrange(name.len() - 5, name.len() as int) =~= ".json"@);
        assert(name.subrange(0, name.len() - 5) =~= k);
    }
    if file_name_id(name) == Some(k) {
        assert(name =~= k + ".json"@);
    }
}

proof fn lemma_names_ticket_step(names: Seq<String>, i: int, k: Seq<char>)
    requires
        0 <= i < names.len(),
    ensures
        names_ticket(names.subrange(0, i + 1), k) <==> (names_ticket(names.subrange(0, i), k)
            || file_name_id(names[i]@) == Some(k)),
{
    let prev = names.subrange(0, i);
    let next = names.subrange(0, i + 1);
    lemma_file_name_id(names[i]@, k);
    if names_ticket(next, k) {
        let j = choose|j: int| 0 <= j < next.len() && next[j]@ == k + ".json"@;
        if j < i {
            assert(prev[j] == next[j]);
        }
    }
    if names_ticket(prev, k) {
        let j = choose|j: int| 0 <= j < prev.len() && prev[j]@ == k + ".json"@;
        assert(next[j] == prev[j]);
    }
    if file_name_id(names[i]@) == Some(k) {
        assert(next[i] == names[i]);
    }
}

/// The identifier that the file name `name` (`<id>.json`) names, if any.
pub fn ticket_id_of_file_name(name: &str) -> (res: Option<TicketId>)
    ensures
        res matches Some(id) ==> file_name_id(name@) == Some(id@),
        res is None ==> file_name_id(name@) is None,
{
    proof {
        reveal_strlit(".json");
    }
    if !ends_with(name, ".json") {
        return None;
    }
    let n = name.unicode_len();
    let stem = name.substring_char(0, n - 5);
    match TicketId::parse(stem) {
        Ok(id) => Some(id),
        Err(_) => None,
    }
}

/// The ticket identifiers that a directory listing holds: every name
/// `<id>.json` whose stem is a ticket identifier, each once.
pub fn ticket_ids_from_names(names: &Vec<String>) -> (res: Vec<TicketId>)
    ensures
        distinct_ids(res@),
        forall|k: Seq<char>| has_id(res@, k) <==> names_ticket(names@, k),
{
    let mut out: Vec<TicketId> = Vec::new();
    let mut i: usize = 0;
    while i < names.len()
        invariant
            i <= names@.len(),
            distinct_ids(out@),
            forall|k: Seq<char>| has_id(out@, k) <==> names_ticket(names@.subrange(0, i as int), k),
        decreases names@.len() - i,
    {
        let ghost before = out@;
        let found = ticket_id_of_file_name(names[i].as_str());
        match found {
            Some(id) => {
                if !contains_id(&out, &id) {
                    out.push(id);
                }
            },
            None => {},
        }
        proof {
            assert forall|k: Seq<char>|
                has_id(out@, k) <==> names_ticket(names@.subrange(0, i + 1), k) by {
                lemma_names_ticket_step(names@, i as int, k);
                if out@.len() > before.len() {
                    assert(out@ =~= before.push(out@.last()));
                    lemma_has_id_push(before, out@.last(), k);
                }
            }
        }
        i = i + 1;
    }
    assert(names@.subrange(0, names@.len() as int) =~= names@);
    out
}

/// The identifiers in `a` followed by those of `b` that `a` lacks.
pub fn merge_ids(a: Vec<TicketId>, b: &Vec<TicketId>) -> (res: Vec<TicketId>)
    requires
        distinct_ids(a@),
    ensures
        distinct_ids(res@),
        forall|k: Seq<char>| has_id(res@, k) <==> (has_id(a@, k) || has_id(b@, k)),
{
    let mut out = a;
    let mut i: usize = 0;
    assert(forall|k: Seq<char>| !has_id(b@.subrange(0, 0), k));
    while i < b.len()
        invariant
            i <= b@.len(),
            distinct_ids(out@),
            forall|k: Seq<char>|
                has_id(out@, k) <==> (has_id(a@, k) || has_id(b@.subrange(0, i as int), k)),
        decreases b@.len() - i,
    {
        let ghost before = out@;
        let id = b[i].clone();
        if !contains_id(&out, &id) {
            out.push(id);
        }
        proof {
            assert forall|k: Seq<char>|
                has_id(out@, k) <==> (has_id(a@, k) || has_id(b@.subrange(0, i + 1), k)) by {
                lemma_has_id_prefix_step(b@, i as int, k);
                if out@.len() > before.len() {
                    assert(out@ =~= before.push(out@.last()));
                    lemma_has_id_push(before, out@.last(), k);
                }
            }
        }
        i = i + 1;
    }
    assert(b@.subrange(0, b@.len() as int) =~= b@);
    out
}

impl TicketStore {
    /// Every identifier in the archive: those of the flat legacy directory and
    /// those of each month directory, each once.
    pub fn archive_ticket_ids(&self, flat: Vec<TicketId>, months: &Vec<Vec<TicketId>>) -> (res: Vec<
        TicketId,
    >)
        requires
            distinct_ids(flat@),
        ensures
            distinct_ids(res@),
            forall|k: Seq<char>|
                has_id(res@, k) <==> (has_id(flat@, k) || exists|m: int|
                    0 <= m < months@.len() && has_id(#[trigger] months@[m]@, k)),
    {
        let mut out = flat;
        let mut i: usize = 0;
        while i < months.len()
            invariant
                i <= months@.len(),
                distinct_ids(out@),
                forall|k: Seq<char>|
                    has_id(out@, k) <==> (has_id(flat@, k) || exists|m: int|
                        0 <= m < i && has_id(#[trigger] months@[m]@, k)),
            decreases months@.len() - i,
        {
            out = merge_ids(out, &months[i]);
            proof {
                assert forall|k: Seq<char>|
                    has_id(out@, k) <==> (has_id(flat@, k) || exists|m: int|
                        0 <= m < i + 1 && has_id(#[trigger] months@[m]@, k)) by {
                    if has_id(months@[i as int]@, k) {
                        assert(0 <= i < i + 1);
                    }
                }
            }
            i = i + 1;
        }
        out
    }
}

// ---------------------------------------------------------------------------
// Archive months
// ---------------------------------------------------------------------------
/// Whether `s` has the shape `YYYY-MM`.
pub open spec fn is_archive_month_seq(s: Seq<char>) -> bool {
    &&& s.len() == 7
    &&& all_digits(s.subrange(0, 4))
    &&& s[4] == '-'
    &&& all_digits(s.subrange(5, 7))
}

/// The archive month of a timestamp: its first seven characters when they have
/// the shape `YYYY-MM`.
pub open spec fn month_of_timestamp(s: Seq<char>) -> Option<Seq<char>> {
    let head = if s.len() < 7 {
        s
    } else {
        s.subrange(0, 7)
    };
    if is_archive_month_seq(head) {
        Some(head)
    } else {
        None
    }
}

/// Whether `value` has the shape `YYYY-MM`.
pub fn is_archive_month(value: &str) -> (res: bool)
    ensures
        res == is_archive_month_seq(value@),
{
    if value.unicode_len() != 7 || value.get_char(4) != '-' {
        return false;
    }
    crate::text::str_all_digits(value.substring_char(0, 4)) && crate::text::str_all_digits(
        value.substring_char(5, 7),
    )
}

/// The month directories of an archive listing: the names of the shape `YYYY-MM`.
pub fn archive_months_from_names(names: &Vec<String>) -> (res: Vec<String>)
    ensures
        res@ == names@.filter(|n: String| is_archive_month_seq(n@)),
{
    let mut out: Vec<String> = Vec::new();
    let mut i: usize = 0;
    while i < names.len()
        invariant
            i <= names@.len(),
            out@ == names@.subrange(0, i as int).filter(|n: String| is_archive_month_seq(n@)),
        decreases names@.len() - i,
    {
        proof {
            let pred = |n: String| is_archive_month_seq(n@);
            assert(names@.subrange(0, i + 1) =~= names@.subrange(0, i as int).push(names@[i as int]));
            names@.subrange(0, i as int).lemma_filter_push(names@[i as int], pred);
        }
        if is_archive_month(names[i].as_str()) {
            out.push(names[i].clone());
        }
        i = i + 1;
    }
    assert(names@.subrange(0, names@.len() as int) =~= names@);
    out
}

/// The archive month of a timestamp (`YYYY-MM` from its first seven characters).
pub fn archive_month_from_timestamp(value: &str) -> (res: Option<String>)
    ensures
        res matches Some(m) ==> month_of_timestamp(value@) == Some(m@),
        res is None ==> month_of_timestamp(value@) is None,
{
    let n = value.unicode_len();
    let head = if n < 7 {
        value.substring_char(0, n)
    } else {
        value.substring_char(0, 7)
    };
    assert(n < 7 ==> value@.subrange(0, n as int) =~= value@);
    if is_archive_month(head) {
        Some(owned(head))
    } else {
        None
    }
}

/// The month of a clock timestamp: for an RFC 3339 text, its first seven
/// characters, a `YYYY-MM` month; for the decimal seconds of an instant before
/// the year 0, none.
pub proof fn lemma_clock_text_month(s: Seq<char>)
    requires
        is_clock_text(s),
    ensures
        is_rfc3339_text(s) ==> month_of_timestamp(s) == Some(s.subrange(0, 7))
            && is_archive_month_seq(s.subrange(0, 7)),
        !is_rfc3339_text(s) ==> month_of_timestamp(s) is None,
{
    if is_rfc3339_text(s) {
        let h = s.subrange(0, 7);
        assert(h.subrange(0, 4) =~= s.subrange(0, 4));
        assert(h.subrange(5, 7) =~= s.subrange(5, 7));
        assert(h[4] == s[4]);
    } else {
        let v = choose|v: int| i64::MIN <= v < year_zero_seconds() && s == #[trigger] signed_decimal(v);
        assert(s[0] == '-');
        let h = if s.len() < 7 { s } else { s.subrange(0, 7) };
        if h.len() == 7 {
            assert(h.subrange(0, 4)[0] == '-');
            assert(!is_digit_char(h.subrange(0, 4)[0]));
        }
    }
}

/// The month a closed ticket is archived under: that of its `closed` stamp,
/// else that of its `updated` stamp, else `unknown`.
pub open spec fn ticket_archive_month(closed: Option<String>, updated: Seq<char>) -> Seq<char> {
    match closed {
        Some(c) if month_of_timestamp(c@) is Some => month_of_timestamp(c@)->0,
        _ => match month_of_timestamp(updated) {
            Some(m) => m,
            None => "unknown"@,
        },
    }
}

/// The month under which `ticket` is archived.
pub fn archive_month_for_ticket(ticket: &Ticket) -> (res: String)
    ensures
        res@ == ticket_archive_month(ticket.closed, ticket.updated@),
{
    let from_closed = match &ticket.closed {
        Some(c) => archive_month_from_timestamp(c.as_str()),
        None => None,
    };
    match from_closed {
        Some(m) => m,
        None => match archive_month_from_timestamp(ticket.updated.as_str()) {
            Some(m) => m,
            None => owned("unknown"),
        },
    }
}

// ---------------------------------------------------------------------------
// Identifier allocation
// ---------------------------------------------------------------------------
/// The sequence number of `id` on `day`: what follows `T-{day}-` read as a
/// `u16`, if `id` starts so.
pub open spec fn day_suffix(id: Seq<char>, day: Seq<char>) -> Option<nat> {
    let prefix = seq!['T', '-'] + day + seq!['-'];
    if has_prefix(id, prefix) {
        parse_unsigned_spec(id.subrange(prefix.len() as int, id.len() as int), 65535)
    } else {
        None
    }
}

/// The sequence number of `id` on `day`, or 0.
pub open spec fn suffix_or_zero(id: Seq<char>, day: Seq<char>) -> nat {
    match day_suffix(id, day) {
        Some(v) => v,
        None => 0,
    }
}

/// The largest sequence number on `day` among `ids` (0 when there is none).
pub open spec fn max_suffix(ids: Seq<TicketId>, day: Seq<char>) -> nat
    decreases ids.len(),
{
    if ids.len() == 0 {
        0
    } else {
        let rest = max_suffix(ids.drop_last(), day);
        let s = suffix_or_zero(ids.last()@, day);
        if s > rest {
            s
        } else {
            rest
        }
    }
}

/// The largest sequence number on `day` among the last identifier handed out
/// and the identifiers present in the store.
pub open spec fn highest_suffix(
    last_id: Option<TicketId>,
    active: Seq<TicketId>,
    archived: Seq<TicketId>,
    day: Seq<char>,
) -> nat {
    let l = match last_id {
        Some(id) => suffix_or_zero(id@, day),
        None => 0,
    };
    let a = max_suffix(active, day);
    let b = max_suffix(archived, day);
    let m = if l > a {
        l
    } else {
        a
    };
    if b > m {
        b
    } else {
        m
    }
}

/// The sequence number of `id` on `day`.
pub fn suffix_for_day(id: &TicketId, day: &str) -> (res: Option<u16>)
    ensures
        res matches Some(v) ==> day_suffix(id@, day@) == Some(v as nat),
        res is None ==> day_suffix(id@, day@) is None,
{
    let mut prefix = owned("T-");
    prefix.append(day);
    prefix.append("-");
    proof {
        reveal_strlit("T-");
        reveal_strlit("-");
    }
    assert(prefix@ =~= seq!['T', '-'] + day@ + seq!['-']);
    let text = id.as_str();
    if starts_with(text, prefix.as_str()) {
        let n = text.unicode_len();
        let rest = text.substring_char(prefix.unicode_len(), n);
        match parse_unsigned(rest, 65535) {
            Some(v) => Some(v as u16),
            None => None,
        }
    } else {
        None
    }
}

fn suffix_or_zero_exec(id: &TicketId, day: &str) -> (res: u16)
    ensures
        res as nat == suffix_or_zero(id@, day@),
{
    match suffix_for_day(id, day) {
        Some(v) => v,
        None => 0,
    }
}

fn max_suffix_exec(ids: &Vec<TicketId>, day: &str) -> (res: u16)
    ensures
        res as nat == max_suffix(ids@, day@),
{
    let mut best: u16 = 0;
    let mut i: usize = 0;
    assert(ids@.subrange(0, 0) =~= Seq::<TicketId>::empty());
    while i < ids.len()
        invariant
            i <= ids@.len(),
            best as nat == max_suffix(ids@.subrange(0, i as int), day@),
        decreases ids@.len() - i,
    {
        assert(ids@.subrange(0, i + 1).drop_last() =~= ids@.subrange(0, i as int));
        let s = suffix_or_zero_exec(&ids[i], day);
        if s > best {
            best = s;
        }
        i = i + 1;
    }
    assert(ids@.subrange(0, ids@.len() as int) =~= ids@);
    best
}

/// What allocating the next identifier of `day` gives.
pub open spec fn next_id_outcome(
    last_id: Option<TicketId>,
    active: Seq<TicketId>,
    archived: Seq<TicketId>,
    day: Seq<char>,
) -> Option<Seq<char>> {
    let next = highest_suffix(last_id, active, archived, day) + 1;
    if next > 65535 {
        None
    } else {
        Some(id_text(day, next))
    }
}

impl TicketStore {
    /// The next identifier of `day`: one past the highest sequence number of
    /// that day among the last identifier handed out and the identifiers of
    /// the active and archived tickets.
    pub fn next_ticket_id(
        &self,
        day: &str,
        last_id: &Option<TicketId>,
        active_ids: &Vec<TicketId>,
        archive_ids: &Vec<TicketId>,
    ) -> (res: Result<TicketId, TicketFlowError>)
        ensures
            next_id_outcome(*last_id, active_ids@, archive_ids@, day@) is None ==> (res matches Err(
                e,
            ) && (e matches TicketFlowError::IdSequenceExhausted(d) && d@ == day@)),
            next_id_outcome(*last_id, active_ids@, archive_ids@, day@) matches Some(text) ==> {
                &&& res is Ok <==> is_ticket_id_seq(text)
                &&& res matches Ok(id) ==> id@ == text
                &&& res matches Err(e) ==> (e matches TicketFlowError::InvalidTicketId(s) && s@
                    == text)
            },
    {
        let l: u16 = match last_id {
            Some(id) => suffix_or_zero_exec(id, day),
            None => 0,
        };
        let a = max_suffix_exec(active_ids, day);
        let b = max_suffix_exec(archive_ids, day);
        let m = if l > a {
            l
        } else {
            a
        };
        let max_found = if b > m {
            b
        } else {
            m
        };
        match max_found.checked_add(1) {
            Some(next) => TicketId::from_parts(day, next),
            None => Err(TicketFlowError::IdSequenceExhausted(owned(day))),
        }
    }
}

// ---------------------------------------------------------------------------
// The allocation law
// ---------------------------------------------------------------------------
proof fn lemma_digit_char(d: nat)
    requires
        d < 10,
    ensures
        is_digit_char(digit_char(d)),
        char_value(digit_char(d)) == d,
{
}

proof fn lemma_decimal_all_digits(n: nat)
    ensures
        all_digits(decimal(n)),
        digits_value(decimal(n)) == n,
    decreases n,
{
    if n >= 10 {
        lemma_decimal_all_digits(n / 10);
        let d = decimal(n / 10);
        assert(decimal(n).drop_last() =~= d);
        lemma_digit_char(n % 10);
        assert(decimal(n).last() == digit_char(n % 10));
        assert(digits_value(decimal(n)) == digits_value(d) * 10 + char_value(digit_char(n % 10)));
        assert((n / 10) * 10 + n % 10 == n) by (nonlinear_arith);
    } else {
        lemma_digit_char(n);
        assert(decimal(n).drop_last() =~= Seq::<char>::empty());
        assert(digits_value(Seq::<char>::empty()) == 0);
        assert(digits_value(decimal(n)) == 0 * 10 + char_value(digit_char(n)));
    }
}

proof fn lemma_leading_zeros(k: nat, s: Seq<char>)
    requires
        all_digits(s),
    ensures
        all_digits(Seq::new(k, |_i: int| '0') + s),
        digits_value(Seq::new(k, |_i: int| '0') + s) == digits_value(s) + digits_value(Seq::new(k, |_i: int| '0')) * pow10(s.len()),
        digits_value(Seq::new(k, |_i: int| '0')) == 0,
    decreases s.len(),
{
    let z = Seq::new(k, |_i: int| '0');
    lemma_zeros_value(k);
    if s.len() == 0 {
        assert(z + s =~= z);
    } else {
        lemma_leading_zeros(k, s.drop_last());
        assert((z + s).drop_last() =~= z + s.drop_last());
        assert((z + s).last() == s.last());
    }
}

proof fn lemma_zeros_value(k: nat)
    ensures
        digits_value(Seq::new(k, |_i: int| '0')) == 0,
    decreases k,
{
    if k > 0 {
        lemma_zeros_value((k - 1) as nat);
        assert(Seq::new(k, |_i: int| '0').drop_last() =~= Seq::new((k - 1) as nat, |_i: int| '0'));
    }
}

/// Ten to the power `e`.
pub open spec fn pow10(e: nat) -> nat
    decreases e,
{
    if e == 0 {
        1
    } else {
        10 * pow10((e - 1) as nat)
    }
}

proof fn lemma_padded_value(n: nat, width: nat)
    ensures
        all_digits(zero_pad(decimal(n), width)),
        digits_value(zero_pad(decimal(n), width)) == n,
{
    lemma_decimal_all_digits(n);
    let d = decimal(n);
    if d.len() < width {
        lemma_leading_zeros((width - d.len()) as nat, d);
    }
}

/// The sequence number read back from the text `id_text(day, n)` is `n`.
proof fn lemma_id_text_suffix(day: Seq<char>, n: nat)
    requires
        n <= 65535,
    ensures
        day_suffix(id_text(day, n), day) == Some(n),
{
    let prefix = seq!['T', '-'] + day + seq!['-'];
    let t = id_text(day, n);
    let tail = zero_pad(decimal(n), 3);
    assert(t =~= prefix + tail);
    assert(t.subrange(0, prefix.len() as int) =~= prefix);
    assert(t.subrange(prefix.len() as int, t.len() as int) =~= tail);
    lemma_padded_value(n, 3);
    lemma_decimal_all_digits(n);
    assert(tail.len() > 0);
    assert(is_digit_char(tail[0]));
    assert(unsigned_body(tail) == tail);
}

proof fn lemma_max_suffix_bound(ids: Seq<TicketId>, day: Seq<char>, i: int)
    requires
        0 <= i < ids.len(),
    ensures
        suffix_or_zero(ids[i]@, day) <= max_suffix(ids, day),
    decreases ids.len(),
{
    if i < ids.len() - 1 {
        lemma_max_suffix_bound(ids.drop_last(), day, i);
    }
}

/// A freshly allocated identifier is new: it differs from the last identifier
/// handed out and from every identifier of the active and archived tickets.
pub proof fn law_next_id_is_fresh(
    last_id: Option<TicketId>,
    active: Seq<TicketId>,
    archived: Seq<TicketId>,
    day: Seq<char>,
)
    requires
        next_id_outcome(last_id, active, archived, day) is Some,
    ensures
        ({
            let text = next_id_outcome(last_id, active, archived, day)->0;
            &&& forall|i: int| 0 <= i < active.len() ==> active[i]@ != text
            &&& forall|i: int| 0 <= i < archived.len() ==> archived[i]@ != text
            &&& last_id matches Some(l) ==> l@ != text
        }),
{
    let m = highest_suffix(last_id, active, archived, day);
    let text = id_text(day, m + 1);
    lemma_id_text_suffix(day, m + 1);
    assert forall|i: int| 0 <= i < active.len() implies active[i]@ != text by {
        lemma_max_suffix_bound(active, day, i);
    }
    assert forall|i: int| 0 <= i < archived.len() implies archived[i]@ != text by {
        lemma_max_suffix_bound(archived, day, i);
    }
}

// ---------------------------------------------------------------------------
// Creating a ticket
// ---------------------------------------------------------------------------
/// What creating a ticket writes: the ticket, its creation event and the new index.
#[derive(Debug)]
pub struct CreatedTicket {
    pub ticket: Ticket,
    pub event: EventEnvelope,
    pub index: TicketIndex,
}

/// Whether `res` is what creating a ticket gives when identifiers are
/// allocated on `day`: a ticket with the next identifier of that day, or the
/// error that allocating it gives (the day's sequence is exhausted, or the
/// next identifier does not have the ticket-id shape).
pub open spec fn allocation_decides(
    res: Result<CreatedTicket, TicketFlowError>,
    last_id: Option<TicketId>,
    active: Seq<TicketId>,
    archived: Seq<TicketId>,
    day: Seq<char>,
) -> bool {
    match next_id_outcome(last_id, active, archived, day) {
        None => (res matches Err(e) && e matches TicketFlowError::IdSequenceExhausted(d) && d@
            == day),
        Some(text) => if is_ticket_id_seq(text) {
            (res matches Ok(c) && c.ticket.id@ == text)
        } else {
            (res matches Err(e) && e matches TicketFlowError::InvalidTicketId(s) && s@ == text)
        },
    }
}

impl TicketStore {
    /// Creates a ticket from `input` with the next identifier of today, given
    /// the store's current `index` and the identifiers of its active and
    /// archived tickets.
    pub fn create_ticket(
        &self,
        input: CreateTicket,
        index: TicketIndex,
        active_ids: &Vec<TicketId>,
        archive_ids: &Vec<TicketId>,
    ) -> (res: Result<CreatedTicket, TicketFlowError>)
        ensures
            exists|day: Seq<char>|
                is_day_text(day) && #[trigger] allocation_decides(
                    res,
                    index.last_id,
                    active_ids@,
                    archive_ids@,
                    day,
                ),
            res matches Ok(c) ==> {
                &&& is_new_ticket(c.ticket, c.ticket.id, input, c.ticket.created)
                &&& is_clock_text(c.ticket.created@)
                &&& is_event(
                    c.event,
                    c.ticket.id,
                    TICKET_CREATED@,
                    EventPayload::Created { title: c.ticket.title },
                )
                &&& c.index.last_id == Some(c.ticket.id)
                &&& c.index.tickets_map().dom() == index.tickets_map().dom().insert(c.ticket.id@)
                &&& is_summary_of(c.index.tickets_map()[c.ticket.id@], c.ticket)
                &&& forall|k: Seq<char>|
                    k != c.ticket.id@ && #[trigger] index.tickets_map().contains_key(k)
                        ==> c.index.tickets_map()[k] == index.tickets_map()[k]
                &&& c.index.version == index.version
            },
    {
        let ghost last = index.last_id;
        let day = today_yyyymmdd();
        let allocated = self.next_ticket_id(day.as_str(), &index.last_id, active_ids, archive_ids);
        let id = match allocated {
            Ok(id) => id,
            Err(e) => {
                let res = Err(e);
                assert(allocation_decides(res, index.last_id, active_ids@, archive_ids@, day@));
                return res;
            },
        };
        let now = now_rfc3339();
        let ticket = Ticket::new(id.clone(), input, now);
        let event = EventEnvelope::new(
            id.clone(),
            TICKET_CREATED,
            EventPayload::Created { title: ticket.title.clone() },
        );
        let mut index = index;
        let ghost old_map = index.tickets_map();
        index.last_id = Some(id);
        let summary = ticket.summary();
        index.record(ticket.id.clone(), summary);
        assert(index.tickets_map().dom() =~= old_map.dom().insert(ticket.id@));
        let res = Ok(CreatedTicket { ticket, event, index });
        assert(allocation_decides(res, last, active_ids@, archive_ids@, day@));
        res
    }
}

} // verus!
