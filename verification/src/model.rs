//! The ticket data model: identifiers, statuses, next actions, checkpoints,
//! artifacts, links, log entries and the optional v2 sections.
use vstd::prelude::*;

use crate::error::TicketFlowError;
use crate::text::{
    all_digits, decimal, is_digit_char, lemma_padded_digits, owned, pad_zeros, decimal_string,
    str_all_digits, str_eq, zero_pad,
};

verus! {

/// Unknown JSON members kept for a lossless round trip: each entry is a member
/// name and the JSON text of its value.
pub type ExtraFields = Vec<(String, String)>;

// ---------------------------------------------------------------------------
// Ticket identifiers
// ---------------------------------------------------------------------------
/// Whether `s` has the shape `T-YYYYMMDD-NNN` (eight and three ASCII digits).
pub open spec fn is_ticket_id_seq(s: Seq<char>) -> bool {
    &&& s.len() == 14
    &&& s[0] == 'T'
    &&& s[1] == '-'
    &&& all_digits(s.subrange(2, 10))
    &&& s[10] == '-'
    &&& all_digits(s.subrange(11, 14))
}

/// The text `T-{day}-{sequence:03}`.
pub open spec fn id_text(day: Seq<char>, sequence: nat) -> Seq<char> {
    seq!['T', '-'] + day + seq!['-'] + zero_pad(decimal(sequence), 3)
}

/// The text composed of a day and a sequence number has the ticket-id shape
/// exactly when the day is eight ASCII digits and the sequence is at most 999.
pub proof fn law_id_text_shape(day: Seq<char>, sequence: nat)
    ensures
        is_ticket_id_seq(id_text(day, sequence)) <==> (day.len() == 8 && all_digits(day)
            && sequence <= 999),
{
    lemma_padded_digits(sequence, 3);
    let p = zero_pad(decimal(sequence), 3);
    let t = id_text(day, sequence);
    let k = day.len() as int;
    assert(t.len() == 3 + k + p.len());
    assert forall|i: int| 0 <= i < k implies t[2 + i] == day[i] by {}
    assert(t[2 + k] == '-');
    assert forall|i: int| 0 <= i < p.len() implies t[3 + k + i] == p[i] by {}
    if day.len() == 8 && all_digits(day) && sequence <= 999 {
        assert(t.subrange(2, 10) =~= day);
        assert(t.subrange(11, 14) =~= p);
    }
    if is_ticket_id_seq(t) {
        if k < 8 {
            assert(t.subrange(2, 10)[k] == t[2 + k]);
            assert(!is_digit_char(t[2 + k]));
        }
        assert(k == 8);
        assert(t.subrange(2, 10) =~= day);
    }
}

/// A ticket identifier, always of the form `T-YYYYMMDD-NNN`.
#[derive(Debug)]
pub struct TicketId {
    value: String,
}

impl View for TicketId {
    type V = Seq<char>;

    closed spec fn view(&self) -> Seq<char> {
        self.value@
    }
}

impl TicketId {
    #[verifier::type_invariant]
    closed spec fn well_formed(self) -> bool {
        is_ticket_id_seq(self.value@)
    }

    /// Accepts `value` when it has the ticket-id shape.
    pub fn parse(value: &str) -> (res: Result<TicketId, TicketFlowError>)
        ensures
            res matches Ok(id) ==> id@ == value@ && is_ticket_id_seq(value@),
            res is Err ==> !is_ticket_id_seq(value@),
            res matches Err(e) ==> (e matches TicketFlowError::InvalidTicketId(s) && s@ == value@),
    {
        if is_ticket_id(value) {
            Ok(TicketId { value: owned(value) })
        } else {
            Err(TicketFlowError::InvalidTicketId(owned(value)))
        }
    }

    /// The identifier for `day` and `sequence`: `T-{day}-{sequence:03}`,
    /// accepted only when that text has the ticket-id shape.
    pub fn from_parts(day: &str, sequence: u16) -> (res: Result<TicketId, TicketFlowError>)
        ensures
            res matches Ok(id) ==> id@ == id_text(day@, sequence as nat),
            res is Ok <==> is_ticket_id_seq(id_text(day@, sequence as nat)),
            res is Ok <==> (day@.len() == 8 && all_digits(day@) && sequence <= 999),
            res matches Err(e) ==> (e matches TicketFlowError::InvalidTicketId(s) && s@ == id_text(
                day@,
                sequence as nat,
            )),
    {
        let mut value = owned("T-");
        value.append(day);
        value.append("-");
        proof {
            reveal_strlit("T-");
            reveal_strlit("-");
        }
        let digits = pad_zeros(decimal_string(sequence as u64), 3);
        value.append(digits.as_str());
        assert(value@ =~= id_text(day@, sequence as nat));
        proof {
            law_id_text_shape(day@, sequence as nat);
        }
        Self::parse(value.as_str())
    }

    /// The identifier text.
    pub fn as_str(&self) -> (res: &str)
        ensures
            res@ == self@,
            is_ticket_id_seq(res@),
    {
        proof {
            use_type_invariant(self);
        }
        self.value.as_str()
    }

    /// Whether two identifiers are the same.
    pub fn same_as(&self, other: &TicketId) -> (res: bool)
        ensures
            res == (self@ == other@),
    {
        self.value == other.value
    }

    /// The identifier as an owned string.
    pub fn to_text(&self) -> (res: String)
        ensures
            res@ == self@,
    {
        self.value.clone()
    }
}

impl Clone for TicketId {
    fn clone(&self) -> (res: Self)
        ensures
            res == *self,
    {
        proof {
            use_type_invariant(self);
        }
        TicketId { value: self.value.clone() }
    }
}

impl PartialEq for TicketId {
    fn eq(&self, other: &Self) -> (res: bool) {
        self.value == other.value
    }
}

impl Eq for TicketId {

}

impl vstd::std_specs::cmp::PartialEqSpecImpl for TicketId {
    open spec fn obeys_eq_spec() -> bool {
        true
    }

    open spec fn eq_spec(&self, other: &TicketId) -> bool {
        self@ == other@
    }
}

/// Whether `value` has the ticket-id shape `T-YYYYMMDD-NNN`.
pub fn is_ticket_id(value: &str) -> (res: bool)
    ensures
        res == is_ticket_id_seq(value@),
{
    let n = value.unicode_len();
    if n != 14 {
        return false;
    }
    if value.get_char(0) != 'T' || value.get_char(1) != '-' || value.get_char(10) != '-' {
        return false;
    }
    let day = value.substring_char(2, 10);
    let seq = value.substring_char(11, 14);
    str_all_digits(day) && str_all_digits(seq)
}

// ---------------------------------------------------------------------------
// Ticket status
// ---------------------------------------------------------------------------
/// The workflow status of a ticket.
#[derive(Debug, Clone, Copy, PartialEq, Eq, Structural)]
pub enum TicketStatus {
    Open,
    Doing,
    Review,
    Blocked,
    Done,
}

/// The wire name of a status.
pub open spec fn status_name(s: TicketStatus) -> Seq<char> {
    match s {
        TicketStatus::Open => "open"@,
        TicketStatus::Doing => "doing"@,
        TicketStatus::Review => "review"@,
        TicketStatus::Blocked => "blocked"@,
        TicketStatus::Done => "done"@,
    }
}

/// The status whose wire name is `v`.
pub open spec fn status_from_name(v: Seq<char>) -> Option<TicketStatus> {
    if v == "open"@ {
        Some(TicketStatus::Open)
    } else if v == "doing"@ {
        Some(TicketStatus::Doing)
    } else if v == "review"@ {
        Some(TicketStatus::Review)
    } else if v == "blocked"@ {
        Some(TicketStatus::Blocked)
    } else if v == "done"@ {
        Some(TicketStatus::Done)
    } else {
        None
    }
}

impl TicketStatus {
    /// The wire name of this status (what `Display` prints).
    pub fn as_str(&self) -> (res: &'static str)
        ensures
            res@ == status_name(*self),
    {
        match self {
            TicketStatus::Open => "open",
            TicketStatus::Doing => "doing",
            TicketStatus::Review => "review",
            TicketStatus::Blocked => "blocked",
            TicketStatus::Done => "done",
        }
    }

    /// Parses a status from its wire name.
    pub fn from_str(value: &str) -> (res: Result<TicketStatus, TicketFlowError>)
        ensures
            res matches Ok(s) ==> status_from_name(value@) == Some(s),
            res is Err ==> status_from_name(value@) is None,
            res matches Err(e) ==> (e matches TicketFlowError::InvalidStatus(t) && t@ == value@),
    {
        if str_eq(value, "open") {
            Ok(TicketStatus::Open)
        } else if str_eq(value, "doing") {
            Ok(TicketStatus::Doing)
        } else if str_eq(value, "review") {
            Ok(TicketStatus::Review)
        } else if str_eq(value, "blocked") {
            Ok(TicketStatus::Blocked)
        } else if str_eq(value, "done") {
            Ok(TicketStatus::Done)
        } else {
            Err(TicketFlowError::InvalidStatus(owned(value)))
        }
    }

    /// The status a ticket starts in.
    pub fn default_status() -> (res: TicketStatus)
        ensures
            res == TicketStatus::Open,
    {
        TicketStatus::Open
    }
}

impl Default for TicketStatus {
    fn default() -> (res: Self)
        ensures
            res == TicketStatus::Open,
    {
        TicketStatus::Open
    }
}

// ---------------------------------------------------------------------------
// Next actions
// ---------------------------------------------------------------------------
/// Who or what must act next on a ticket.
#[derive(Debug, Clone, Copy, PartialEq, Eq, Structural)]
pub enum NextActionType {
    AgentAction,
    OwnerGate,
    ReleaseGate,
    Blocked,
}

/// The wire name of a next-action type.
pub open spec fn next_action_type_name(t: NextActionType) -> Seq<char> {
    match t {
        NextActionType::AgentAction => "agent_action"@,
        NextActionType::OwnerGate => "owner_gate"@,
        NextActionType::ReleaseGate => "release_gate"@,
        NextActionType::Blocked => "blocked"@,
    }
}

/// The next-action type whose wire name is `v`.
pub open spec fn next_action_type_from_name(v: Seq<char>) -> Option<NextActionType> {
    if v == "agent_action"@ {
        Some(NextActionType::AgentAction)
    } else if v == "owner_gate"@ {
        Some(NextActionType::OwnerGate)
    } else if v == "release_gate"@ {
        Some(NextActionType::ReleaseGate)
    } else if v == "blocked"@ {
        Some(NextActionType::Blocked)
    } else {
        None
    }
}

impl NextActionType {
    /// The wire name of this type.
    pub fn as_str(&self) -> (res: &'static str)
        ensures
            res@ == next_action_type_name(*self),
    {
        match self {
            NextActionType::AgentAction => "agent_action",
            NextActionType::OwnerGate => "owner_gate",
            NextActionType::ReleaseGate => "release_gate",
            NextActionType::Blocked => "blocked",
        }
    }

    /// Parses a next-action type from its wire name.
    pub fn from_str(value: &str) -> (res: Result<NextActionType, TicketFlowError>)
        ensures
            res matches Ok(t) ==> next_action_type_from_name(value@) == Some(t),
            res is Err ==> next_action_type_from_name(value@) is None,
            res matches Err(e) ==> (e matches TicketFlowError::InvalidStatus(s) && s@ == value@),
    {
        if str_eq(value, "agent_action") {
            Ok(NextActionType::AgentAction)
        } else if str_eq(value, "owner_gate") {
            Ok(NextActionType::OwnerGate)
        } else if str_eq(value, "release_gate") {
            Ok(NextActionType::ReleaseGate)
        } else if str_eq(value, "blocked") {
            Ok(NextActionType::Blocked)
        } else {
            Err(TicketFlowError::InvalidStatus(owned(value)))
        }
    }
}

/// A copy of an optional string.
pub fn clone_opt(o: &Option<String>) -> (res: Option<String>)
    ensures
        res == *o,
{
    match o {
        Some(s) => Some(s.clone()),
        None => None,
    }
}

/// A copy of a list of strings.
pub fn clone_strings(v: &Vec<String>) -> (res: Vec<String>)
    ensures
        res@ == v@,
{
    let mut out: Vec<String> = Vec::new();
    let mut i: usize = 0;
    while i < v.len()
        invariant
            i <= v.len(),
            out@ == v@.subrange(0, i as int),
        decreases v.len() - i,
    {
        out.push(v[i].clone());
        assert(out@ =~= v@.subrange(0, i + 1));
        i = i + 1;
    }
    assert(out@ =~= v@);
    out
}

/// A copy of a list of extra members.
pub fn clone_extra(v: &ExtraFields) -> (res: ExtraFields)
    ensures
        res@ == v@,
{
    let mut out: ExtraFields = Vec::new();
    let mut i: usize = 0;
    while i < v.len()
        invariant
            i <= v.len(),
            out@ == v@.subrange(0, i as int),
        decreases v.len() - i,
    {
        let (k, val) = &v[i];
        out.push((k.clone(), val.clone()));
        assert(out@ =~= v@.subrange(0, i + 1));
        i = i + 1;
    }
    assert(out@ =~= v@);
    out
}

/// The next action recorded on a ticket's current state.
#[derive(Debug)]
pub struct NextAction {
    pub action_type: Option<NextActionType>,
    pub command: Option<String>,
    pub owner: Option<String>,
}

impl NextAction {
    /// Whether any of the three fields is set.
    pub fn has_fields(&self) -> (res: bool)
        ensures
            res == (self.action_type is Some || self.command is Some || self.owner is Some),
    {
        self.action_type.is_some() || self.command.is_some() || self.owner.is_some()
    }

    /// A next action with no field set.
    pub fn empty() -> (res: NextAction)
        ensures
            res.action_type is None,
            res.command is None,
            res.owner is None,
    {
        NextAction { action_type: None, command: None, owner: None }
    }
}

impl Default for NextAction {
    fn default() -> (res: Self)
        ensures
            res.action_type is None,
            res.command is None,
            res.owner is None,
    {
        NextAction::empty()
    }
}

impl Clone for NextAction {
    fn clone(&self) -> (res: Self)
        ensures
            res == *self,
    {
        NextAction {
            action_type: self.action_type,
            command: clone_opt(&self.command),
            owner: clone_opt(&self.owner),
        }
    }
}

/// A copy of an optional next action.
pub fn clone_next_action(o: &Option<NextAction>) -> (res: Option<NextAction>)
    ensures
        res == *o,
{
    match o {
        Some(a) => Some(a.clone()),
        None => None,
    }
}

/// What a ticket is doing now: phase, decision, blocker, next step and action.
#[derive(Debug)]
pub struct CurrentState {
    pub phase: Option<String>,
    pub decision: Option<String>,
    pub evidence: Option<String>,
    pub blocker: Option<String>,
    pub next: Option<String>,
    pub note: Option<String>,
    pub next_action: Option<NextAction>,
    pub extra: ExtraFields,
}

impl CurrentState {
    /// A current state with nothing set.
    pub fn empty() -> (res: CurrentState)
        ensures
            res.phase is None,
            res.decision is None,
            res.evidence is None,
            res.blocker is None,
            res.next is None,
            res.note is None,
            res.next_action is None,
            res.extra@.len() == 0,
    {
        CurrentState {
            phase: None,
            decision: None,
            evidence: None,
            blocker: None,
            next: None,
            note: None,
            next_action: None,
            extra: Vec::new(),
        }
    }
}

impl Default for CurrentState {
    fn default() -> (res: Self)
        ensures
            res.phase is None,
            res.decision is None,
            res.evidence is None,
            res.blocker is None,
            res.next is None,
            res.note is None,
            res.next_action is None,
            res.extra@.len() == 0,
    {
        CurrentState::empty()
    }
}

/// The fields of a checkpoint; each one that is set overwrites the ticket's
/// current state.
#[derive(Debug)]
pub struct CheckpointPatch {
    pub phase: Option<String>,
    pub decision: Option<String>,
    pub evidence: Option<String>,
    pub blocker: Option<String>,
    pub next: Option<String>,
    pub note: Option<String>,
    pub next_action_type: Option<NextActionType>,
    pub next_command: Option<String>,
    pub next_owner: Option<String>,
}

/// Whether a checkpoint sets no field.
pub open spec fn patch_is_empty(p: CheckpointPatch) -> bool {
    &&& p.phase is None
    &&& p.decision is None
    &&& p.evidence is None
    &&& p.blocker is None
    &&& p.next is None
    &&& p.note is None
    &&& p.next_action_type is None
    &&& p.next_command is None
    &&& p.next_owner is None
}

impl CheckpointPatch {
    /// Whether no field is set.
    pub fn is_empty(&self) -> (res: bool)
        ensures
            res == patch_is_empty(*self),
    {
        self.phase.is_none() && self.decision.is_none() && self.evidence.is_none()
            && self.blocker.is_none() && self.next.is_none() && self.note.is_none()
            && self.next_action_type.is_none() && self.next_command.is_none()
            && self.next_owner.is_none()
    }

    /// A checkpoint with no field set.
    pub fn empty() -> (res: CheckpointPatch)
        ensures
            patch_is_empty(res),
    {
        CheckpointPatch {
            phase: None,
            decision: None,
            evidence: None,
            blocker: None,
            next: None,
            note: None,
            next_action_type: None,
            next_command: None,
            next_owner: None,
        }
    }
}

impl Default for CheckpointPatch {
    fn default() -> (res: Self)
        ensures
            patch_is_empty(res),
    {
        CheckpointPatch::empty()
    }
}

impl Clone for CheckpointPatch {
    fn clone(&self) -> (res: Self)
        ensures
            res == *self,
    {
        CheckpointPatch {
            phase: clone_opt(&self.phase),
            decision: clone_opt(&self.decision),
            evidence: clone_opt(&self.evidence),
            blocker: clone_opt(&self.blocker),
            next: clone_opt(&self.next),
            note: clone_opt(&self.note),
            next_action_type: self.next_action_type,
            next_command: clone_opt(&self.next_command),
            next_owner: clone_opt(&self.next_owner),
        }
    }
}

// ---------------------------------------------------------------------------
// Artifacts, links and log entries
// ---------------------------------------------------------------------------
/// Something produced for a ticket: a file, a test output, a link.
#[derive(Debug)]
pub struct Artifact {
    pub artifact_type: String,
    pub value: String,
    pub ts: String,
    pub extra: ExtraFields,
}

impl Artifact {
    /// An artifact of `artifact_type` holding `value`, stamped `ts`.
    pub fn new(artifact_type: String, value: String, ts: String) -> (res: Artifact)
        ensures
            res.artifact_type == artifact_type,
            res.value == value,
            res.ts == ts,
            res.extra@.len() == 0,
    {
        Artifact { artifact_type, value, ts, extra: Vec::new() }
    }

    /// The object form of a legacy artifact that was stored as a bare string:
    /// type `artifact`, the string as value, an empty timestamp.
    pub fn from_text(value: String) -> (res: Artifact)
        ensures
            res.artifact_type@ == "artifact"@,
            res.value == value,
            res.ts@.len() == 0,
            res.extra@.len() == 0,
    {
        Artifact::new("artifact".to_string(), value, String::new())
    }
}

/// Whether two artifacts hold the same type, value, timestamp and extra members.
pub open spec fn same_artifact(a: Artifact, b: Artifact) -> bool {
    &&& a.artifact_type == b.artifact_type
    &&& a.value == b.value
    &&& a.ts == b.ts
    &&& a.extra@ == b.extra@
}

impl Clone for Artifact {
    fn clone(&self) -> (res: Self)
        ensures
            same_artifact(res, *self),
    {
        let extra = clone_extra(&self.extra);
        Artifact {
            artifact_type: self.artifact_type.clone(),
            value: self.value.clone(),
            ts: self.ts.clone(),
            extra,
        }
    }
}

/// External references of a ticket, by kind.
#[derive(Debug)]
pub struct LinkMap {
    pub github_issues: Vec<String>,
    pub prs: Vec<String>,
    pub threads: Vec<String>,
    pub cron_jobs: Vec<String>,
    pub extra: ExtraFields,
}

impl LinkMap {
    /// A link map with no references.
    pub fn empty() -> (res: LinkMap)
        ensures
            res.github_issues@.len() == 0,
            res.prs@.len() == 0,
            res.threads@.len() == 0,
            res.cron_jobs@.len() == 0,
            res.extra@.len() == 0,
    {
        LinkMap {
            github_issues: Vec::new(),
            prs: Vec::new(),
            threads: Vec::new(),
            cron_jobs: Vec::new(),
            extra: Vec::new(),
        }
    }
}

impl Default for LinkMap {
    fn default() -> (res: Self)
        ensures
            res.github_issues@.len() == 0,
            res.prs@.len() == 0,
            res.threads@.len() == 0,
            res.cron_jobs@.len() == 0,
            res.extra@.len() == 0,
    {
        LinkMap::empty()
    }
}

/// One entry of a ticket's history.
#[derive(Debug)]
pub struct LogEntry {
    pub ts: String,
    pub action: Option<String>,
    pub note: Option<String>,
    pub phase: Option<String>,
    pub decision: Option<String>,
    pub evidence: Option<String>,
    pub blocker: Option<String>,
    pub next: Option<String>,
    pub next_action: Option<NextAction>,
    pub extra: ExtraFields,
}

// ---------------------------------------------------------------------------
// Optional sections
// ---------------------------------------------------------------------------
/// How much evidence a ticket has.
#[derive(Debug, Clone, Copy, PartialEq, Eq, Structural)]
pub enum EvidenceStatus {
    Missing,
    Partial,
    Sufficient,
}

/// The wire name of an evidence status.
pub open spec fn evidence_status_name(s: EvidenceStatus) -> Seq<char> {
    match s {
        EvidenceStatus::Missing => "missing"@,
        EvidenceStatus::Partial => "partial"@,
        EvidenceStatus::Sufficient => "sufficient"@,
    }
}

impl EvidenceStatus {
    /// The wire name of this status.
    pub fn as_str(&self) -> (res: &'static str)
        ensures
            res@ == evidence_status_name(*self),
    {
        match self {
            EvidenceStatus::Missing => "missing",
            EvidenceStatus::Partial => "partial",
            EvidenceStatus::Sufficient => "sufficient",
        }
    }
}

/// The evidence gathered for a ticket.
#[derive(Debug)]
pub struct EvidenceSection {
    pub evidence_status: EvidenceStatus,
    pub artifacts: Vec<Artifact>,
    pub extra: ExtraFields,
}

impl EvidenceSection {
    /// An evidence section with nothing gathered.
    pub fn empty() -> (res: EvidenceSection)
        ensures
            res.evidence_status == EvidenceStatus::Missing,
            res.artifacts@.len() == 0,
            res.extra@.len() == 0,
    {
        EvidenceSection {
            evidence_status: EvidenceStatus::Missing,
            artifacts: Vec::new(),
            extra: Vec::new(),
        }
    }
}

/// A request that the owner of a ticket approve something.
#[derive(Debug)]
pub struct ApprovalRecord {
    pub id: String,
    pub owner: String,
    pub question: String,
    pub status: String,
    pub requested_at: String,
    pub outcome: Option<String>,
    pub responded_at: Option<String>,
}

/// A request to move a ticket from one owner to another.
#[derive(Debug)]
pub struct HandoffRecord {
    pub id: String,
    pub from: String,
    pub to: String,
    pub reason: String,
    pub status: String,
    pub requested_at: String,
    pub acknowledged_at: Option<String>,
}

/// Owners, handoffs, approvals and blockers of a ticket.
#[derive(Debug)]
pub struct CoordinationSection {
    pub owners: Vec<String>,
    pub handoffs: Vec<HandoffRecord>,
    pub approvals: Vec<ApprovalRecord>,
    pub blockers: Vec<String>,
    pub extra: ExtraFields,
}

impl CoordinationSection {
    /// A coordination section with nothing recorded.
    pub fn empty() -> (res: CoordinationSection)
        ensures
            res.owners@.len() == 0,
            res.handoffs@.len() == 0,
            res.approvals@.len() == 0,
            res.blockers@.len() == 0,
            res.extra@.len() == 0,
    {
        CoordinationSection {
            owners: Vec::new(),
            handoffs: Vec::new(),
            approvals: Vec::new(),
            blockers: Vec::new(),
            extra: Vec::new(),
        }
    }
}

/// Context shared between the agents working a ticket.
#[derive(Debug)]
pub struct SharedSection {
    pub constraints: Vec<String>,
    pub extra: ExtraFields,
}

/// Execution details of a ticket, carried as they were read.
#[derive(Debug)]
pub struct ExecutionSection {
    pub extra: ExtraFields,
}

/// Memory notes of a ticket, carried as they were read.
#[derive(Debug)]
pub struct MemorySection {
    pub extra: ExtraFields,
}

/// Local (machine-specific) details of a ticket, carried as they were read.
#[derive(Debug)]
pub struct LocalSection {
    pub extra: ExtraFields,
}

/// Where a ticket came from.
#[derive(Debug)]
pub enum TicketSource {
    /// The `{"type": kind, "ref": reference}` form that `kind:ref` input produces.
    Reference { kind: String, reference: String },
    /// Any other JSON value, kept as its JSON text.
    Other(String),
}

} // verus!
