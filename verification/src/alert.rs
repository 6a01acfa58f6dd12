//! The alert lifecycle: severity levels, the status state machine, and the
//! alert records that the detection engines raise.
//!
//! Severities are `low`, `medium`, `high` and `critical`. Statuses move along
//! the validated transitions
//! `new -> acknowledged`, `acknowledged -> in_progress`,
//! `acknowledged -> closed`, `in_progress -> resolved`,
//! `in_progress -> closed` and `resolved -> closed`; `closed` is terminal.

use vstd::prelude::*;

use crate::time::Timestamp;

verus! {

/// The severity of an alert, ordered `Low < Medium < High < Critical`.
#[derive(Clone, Copy, Debug, PartialEq, Eq, Structural)]
pub enum Severity {
    Low,
    Medium,
    High,
    Critical,
}

/// A lifecycle status of an alert.
#[derive(Clone, Copy, Debug, PartialEq, Eq, Structural)]
pub enum Status {
    New,
    Acknowledged,
    InProgress,
    Resolved,
    Closed,
}

/// How the alert lifecycle can fail.
#[derive(Debug, Clone)]
pub enum AlertError {
    /// The given string names no severity level.
    InvalidSeverity(String),
    /// The given string names no lifecycle status.
    InvalidStatus(String),
    /// The move from the first status to the second is not a validated
    /// transition.
    InvalidTransition(String, String),
    /// Resolution notes were empty or all whitespace.
    EmptyNotes,
}

/// Which severity a string names, if any.
pub open spec fn severity_of(s: Seq<char>) -> Option<Severity> {
    if s == "low"@ {
        Some(Severity::Low)
    } else if s == "medium"@ {
        Some(Severity::Medium)
    } else if s == "high"@ {
        Some(Severity::High)
    } else if s == "critical"@ {
        Some(Severity::Critical)
    } else {
        None
    }
}

/// The canonical name of a severity.
pub open spec fn severity_name(sv: Severity) -> Seq<char> {
    match sv {
        Severity::Low => "low"@,
        Severity::Medium => "medium"@,
        Severity::High => "high"@,
        Severity::Critical => "critical"@,
    }
}

/// Which status a string names, if any.
pub open spec fn status_of(s: Seq<char>) -> Option<Status> {
    if s == "new"@ {
        Some(Status::New)
    } else if s == "acknowledged"@ {
        Some(Status::Acknowledged)
    } else if s == "in_progress"@ {
        Some(Status::InProgress)
    } else if s == "resolved"@ {
        Some(Status::Resolved)
    } else if s == "closed"@ {
        Some(Status::Closed)
    } else {
        None
    }
}

/// The canonical name of a status.
pub open spec fn status_name(st: Status) -> Seq<char> {
    match st {
        Status::New => "new"@,
        Status::Acknowledged => "acknowledged"@,
        Status::InProgress => "in_progress"@,
        Status::Resolved => "resolved"@,
        Status::Closed => "closed"@,
    }
}

/// The validated transitions of the alert lifecycle; everything else,
/// self-transitions included, is rejected.
pub open spec fn transition_allowed(from: Status, to: Status) -> bool {
    ||| (from == Status::New && to == Status::Acknowledged)
    ||| (from == Status::Acknowledged && to == Status::InProgress)
    ||| (from == Status::Acknowledged && to == Status::Closed)
    ||| (from == Status::InProgress && to == Status::Resolved)
    ||| (from == Status::InProgress && to == Status::Closed)
    ||| (from == Status::Resolved && to == Status::Closed)
}

/// String equality, usable wherever two string slices must be compared.
pub fn str_eq(a: &str, b: &str) -> (r: bool)
    ensures
        r == (a@ == b@),
{
    let a_owned: String = a.to_owned();
    let b_owned: String = b.to_owned();
    a_owned == b_owned
}

/// Parses a severity name.
pub fn parse_severity(s: &str) -> (r: Option<Severity>)
    ensures
        r == severity_of(s@),
{
    if str_eq(s, "low") {
        Some(Severity::Low)
    } else if str_eq(s, "medium") {
        Some(Severity::Medium)
    } else if str_eq(s, "high") {
        Some(Severity::High)
    } else if str_eq(s, "critical") {
        Some(Severity::Critical)
    } else {
        None
    }
}

/// Parses a status name.
pub fn parse_status(s: &str) -> (r: Option<Status>)
    ensures
        r == status_of(s@),
{
    if str_eq(s, "new") {
        Some(Status::New)
    } else if str_eq(s, "acknowledged") {
        Some(Status::Acknowledged)
    } else if str_eq(s, "in_progress") {
        Some(Status::InProgress)
    } else if str_eq(s, "resolved") {
        Some(Status::Resolved)
    } else if str_eq(s, "closed") {
        Some(Status::Closed)
    } else {
        None
    }
}

/// Renders a severity under its canonical name.
pub fn severity_str(sv: Severity) -> (r: &'static str)
    ensures
        r@ == severity_name(sv),
{
    match sv {
        Severity::Low => "low",
        Severity::Medium => "medium",
        Severity::High => "high",
        Severity::Critical => "critical",
    }
}

/// Renders a status under its canonical name.
pub fn status_str(st: Status) -> (r: &'static str)
    ensures
        r@ == status_name(st),
{
    match st {
        Status::New => "new",
        Status::Acknowledged => "acknowledged",
        Status::InProgress => "in_progress",
        Status::Resolved => "resolved",
        Status::Closed => "closed",
    }
}

/// Decides whether a transition between two statuses is validated.
pub fn transition_allowed_exec(from: Status, to: Status) -> (r: bool)
    ensures
        r == transition_allowed(from, to),
{
    match (from, to) {
        (Status::New, Status::Acknowledged) => true,
        (Status::Acknowledged, Status::InProgress) => true,
        (Status::Acknowledged, Status::Closed) => true,
        (Status::InProgress, Status::Resolved) => true,
        (Status::InProgress, Status::Closed) => true,
        (Status::Resolved, Status::Closed) => true,
        _ => false,
    }
}

/// Validates a severity name: accepted exactly for the four severity levels,
/// rejected with `InvalidSeverity` for every other string.
pub fn validate_severity(severity: &str) -> (r: Result<bool, AlertError>)
    ensures
        severity_of(severity@) is Some <==> r is Ok,
        r is Ok ==> r == Ok::<bool, AlertError>(true),
        r matches Err(e) ==> e matches AlertError::InvalidSeverity(s) && s@ == severity@,
{
    match parse_severity(severity) {
        Some(_) => Ok(true),
        None => Err(AlertError::InvalidSeverity(severity.to_owned())),
    }
}

/// Validates a status transition between two status names: both must name
/// statuses (else `InvalidStatus`), and the pair must be a validated
/// transition (else `InvalidTransition`).
pub fn validate_status_transition(current_status: &str, new_status: &str) -> (r: Result<
    bool,
    AlertError,
>)
    ensures
        r is Ok <==> (status_of(current_status@) matches Some(from)
            && status_of(new_status@) matches Some(to) && transition_allowed(from, to)),
        r is Ok ==> r == Ok::<bool, AlertError>(true),
        status_of(current_status@) is None ==> (r matches Err(e)
            && e matches AlertError::InvalidStatus(s) && s@ == current_status@),
        status_of(current_status@) is Some && status_of(new_status@) is None ==> (r matches Err(e)
            && e matches AlertError::InvalidStatus(s) && s@ == new_status@),
        (status_of(current_status@) is Some && status_of(new_status@) is Some && r is Err) ==> (
        r matches Err(e) && e matches AlertError::InvalidTransition(f, t) && f@ == current_status@
            && t@ == new_status@),
{
    let from = match parse_status(current_status) {
        Some(st) => st,
        None => {
            return Err(AlertError::InvalidStatus(current_status.to_owned()));
        },
    };
    let to = match parse_status(new_status) {
        Some(st) => st,
        None => {
            return Err(AlertError::InvalidStatus(new_status.to_owned()));
        },
    };
    if transition_allowed_exec(from, to) {
        Ok(true)
    } else {
        Err(AlertError::InvalidTransition(current_status.to_owned(), new_status.to_owned()))
    }
}

/// Every status string round-trips: parsing the canonical name of a status
/// yields that status, and the name of a parsed string is the string itself.
pub proof fn lemma_status_names_parse(st: Status)
    ensures
        status_of(status_name(st)) == Some(st),
{
    broadcast use vstd::string::group_string_axioms;

    reveal_strlit("new");
    reveal_strlit("acknowledged");
    reveal_strlit("in_progress");
    reveal_strlit("resolved");
    reveal_strlit("closed");
    assert("new"@.len() == 3);
    assert("acknowledged"@.len() == 12);
    assert("in_progress"@.len() == 11);
    assert("resolved"@.len() == 8);
    assert("closed"@.len() == 6);
}

/// Severity names round-trip in the same way.
pub proof fn lemma_severity_names_parse(sv: Severity)
    ensures
        severity_of(severity_name(sv)) == Some(sv),
{
    broadcast use vstd::string::group_string_axioms;

    reveal_strlit("low");
    reveal_strlit("medium");
    reveal_strlit("high");
    reveal_strlit("critical");
    assert("low"@.len() == 3);
    assert("medium"@.len() == 6);
    assert("high"@.len() == 4);
    assert("critical"@.len() == 8);
}

/// Exactly six ordered status pairs are validated transitions; the other
/// nineteen, all self-transitions among them, are rejected.
pub proof fn lemma_transitions_exhaustive()
    ensures
        forall|from: Status, to: Status|
            transition_allowed(from, to) <==> ((from == Status::New && to == Status::Acknowledged)
                || (from == Status::Acknowledged && to == Status::InProgress) || (from
                == Status::Acknowledged && to == Status::Closed) || (from == Status::InProgress
                && to == Status::Resolved) || (from == Status::InProgress && to == Status::Closed)
                || (from == Status::Resolved && to == Status::Closed)),
        forall|st: Status| !transition_allowed(st, st),
{
}

/// `closed` is terminal: no outgoing transition from it is ever validated.
pub proof fn lemma_closed_terminal(to: Status)
    ensures
        !transition_allowed(Status::Closed, to),
{
}

/// Whether a character has the Unicode `White_Space` property (the set that
/// `str::trim` strips).
pub open spec fn is_space(c: char) -> bool {
    let u = c as u32;
    (9 <= u && u <= 13) || u == 32 || u == 0x85 || u == 0xA0 || u == 0x1680 || (0x2000 <= u && u
        <= 0x200A) || u == 0x2028 || u == 0x2029 || u == 0x202F || u == 0x205F || u == 0x3000
}

/// Whether a string is empty or holds whitespace only.
pub open spec fn all_whitespace(s: Seq<char>) -> bool {
    forall|i: int| 0 <= i < s.len() ==> is_space(#[trigger] s[i])
}

/// Decides whether a character has the Unicode `White_Space` property.
pub fn char_is_space(c: char) -> (r: bool)
    ensures
        r == is_space(c),
{
    let u = c as u32;
    (9 <= u && u <= 13) || u == 32 || u == 0x85 || u == 0xA0 || u == 0x1680 || (0x2000 <= u && u
        <= 0x200A) || u == 0x2028 || u == 0x2029 || u == 0x202F || u == 0x205F || u == 0x3000
}

/// Decides whether a string is empty or holds whitespace only.
pub fn str_all_whitespace(s: &str) -> (r: bool)
    ensures
        r == all_whitespace(s@),
{
    let n = s.unicode_len();
    let mut i: usize = 0;
    while i < n
        invariant
            n == s@.len(),
            0 <= i <= n,
            forall|j: int| 0 <= j < i ==> is_space(#[trigger] s@[j]),
        decreases n - i,
    {
        let c = s.get_char(i);
        if !char_is_space(c) {
            return false;
        }
        i += 1;
    }
    true
}

/// One entry of an alert's status history, immutable once appended.
#[derive(Clone, Debug)]
pub struct StatusTransition {
    pub from_status: Status,
    pub to_status: Status,
    pub transition_time: Timestamp,
    pub transition_notes: Option<String>,
}

/// The mathematical content of an alert record.
pub ghost struct AlertView {
    pub alert_id: Seq<char>,
    pub severity: Severity,
    pub description: Seq<char>,
    pub status: Status,
    pub created_at: Timestamp,
    pub updated_at: Option<Timestamp>,
    pub user_id: Seq<char>,
    pub resolution_notes: Option<Seq<char>>,
    pub history: Seq<StatusTransition>,
}

impl AlertView {
    /// The lifecycle invariant: every history entry records a validated
    /// transition, entries chain from `new` up to the current status, and
    /// their timestamps never decrease.
    pub open spec fn wf(self) -> bool {
        &&& self.created_at.wf()
        &&& forall|i: int|
            0 <= i < self.history.len() ==> (#[trigger] self.history[i]).transition_time.wf()
        &&& forall|i: int|
            0 <= i < self.history.len() ==> transition_allowed(
                (#[trigger] self.history[i]).from_status,
                self.history[i].to_status,
            )
        &&& forall|i: int, j: int|
            #![trigger self.history[i], self.history[j]]
            0 <= i && i + 1 == j && j < self.history.len() ==> self.history[j].from_status
                == self.history[i].to_status
        &&& forall|i: int, j: int|
            #![trigger self.history[i], self.history[j]]
            0 <= i <= j < self.history.len() ==> self.history[i].transition_time.le(
                self.history[j].transition_time,
            )
        &&& (self.history.len() == 0 ==> self.status == Status::New)
        &&& (self.history.len() > 0 ==> self.history[0].from_status == Status::New
            && self.created_at.le(self.history[0].transition_time) && self.status == self.history[
            self.history.len() - 1].to_status)
    }
}

/// An alert raised by one of the detection engines. Severity is fixed at
/// creation; the status only changes along validated transitions, each
/// recorded in an append-only, time-ordered history.
#[derive(Clone, Debug)]
pub struct Alert {
    alert_id: String,
    severity: Severity,
    description: String,
    status: Status,
    created_at: Timestamp,
    updated_at: Option<Timestamp>,
    user_id: String,
    resolution_notes: Option<String>,
    status_history: Vec<StatusTransition>,
}

impl View for Alert {
    type V = AlertView;

    closed spec fn view(&self) -> AlertView {
        AlertView {
            alert_id: self.alert_id@,
            severity: self.severity,
            description: self.description@,
            status: self.status,
            created_at: self.created_at,
            updated_at: self.updated_at,
            user_id: self.user_id@,
            resolution_notes: match self.resolution_notes {
                Some(n) => Some(n@),
                None => None,
            },
            history: self.status_history@,
        }
    }
}

/// Relies on `uuid::Uuid::new_v4` and its `Display` impl: a fresh random
/// identifier rendered in the hyphenated form, which is 36 ASCII characters.
#[verifier::external_body]
fn fresh_alert_id() -> (r: String)
    ensures
        r@.len() == 36,
{
    uuid::Uuid::new_v4().to_string()
}

impl Alert {
    /// Creates an alert: succeeds exactly for the four severity levels, with
    /// status `new`, an empty history and a fresh 36-character id.
    pub fn new(severity: String, description: String, user_id: String) -> (r: Result<
        Alert,
        AlertError,
    >)
        ensures
            r is Ok <==> severity_of(severity@) is Some,
            r matches Ok(a) ==> {
                &&& a@.wf()
                &&& severity_of(severity@) == Some(a@.severity)
                &&& a@.description == description@
                &&& a@.user_id == user_id@
                &&& a@.status == Status::New
                &&& a@.history =~= Seq::<StatusTransition>::empty()
                &&& a@.updated_at is None
                &&& a@.resolution_notes is None
                &&& a@.alert_id.len() == 36
            },
            r matches Err(e) ==> e matches AlertError::InvalidSeverity(s) && s@ == severity@,
    {
        let sv = match parse_severity(severity.as_str()) {
            Some(sv) => sv,
            None => {
                return Err(AlertError::InvalidSeverity(severity));
            },
        };
        Ok(
            Alert {
                alert_id: fresh_alert_id(),
                severity: sv,
                description,
                status: Status::New,
                created_at: Timestamp::now(),
                updated_at: None,
                user_id,
                resolution_notes: None,
                status_history: Vec::new(),
            },
        )
    }

    /// Moves the alert to `new_status` if that is a validated transition from
    /// the current status, appending exactly one history entry whose `from`
    /// and `to` match the call and whose timestamp is at or after the
    /// previous entry's.
    #[verifier::rlimit(50)]
    pub fn update_status(&mut self, new_status: String, transition_notes: String) -> (r: Result<
        (),
        AlertError,
    >)
        requires
            old(self)@.wf(),
        ensures
            final(self)@.wf(),
            final(self)@.alert_id == old(self)@.alert_id,
            final(self)@.severity == old(self)@.severity,
            final(self)@.description == old(self)@.description,
            final(self)@.created_at == old(self)@.created_at,
            final(self)@.user_id == old(self)@.user_id,
            final(self)@.resolution_notes == old(self)@.resolution_notes,
            r is Ok <==> (status_of(new_status@) matches Some(ns) && transition_allowed(
                old(self)@.status,
                ns,
            )),
            r is Err ==> final(self)@ == old(self)@,
            status_of(new_status@) is None ==> (r matches Err(e) && e
                matches AlertError::InvalidStatus(s) && s@ == new_status@),
            (status_of(new_status@) is Some && r is Err) ==> (r matches Err(e) && e
                matches AlertError::InvalidTransition(f, t) && f@ == status_name(old(self)@.status)
                && t@ == new_status@),
            r is Ok ==> {
                &&& status_of(new_status@) == Some(final(self)@.status)
                &&& final(self)@.history.len() == old(self)@.history.len() + 1
                &&& final(self)@.history.drop_last() =~= old(self)@.history
                &&& final(self)@.history.last().from_status == old(self)@.status
                &&& Some(final(self)@.history.last().to_status) == status_of(new_status@)
                &&& final(self)@.history.last().transition_notes == Some(transition_notes)
                &&& final(self)@.updated_at == Some(final(self)@.history.last().transition_time)
                &&& (old(self)@.history.len() > 0 ==> old(self)@.history.last().transition_time.le(
                    final(self)@.history.last().transition_time,
                ))
                &&& old(self)@.created_at.le(final(self)@.history.last().transition_time)
            },
    {
        let ns = match parse_status(new_status.as_str()) {
            Some(st) => st,
            None => {
                return Err(AlertError::InvalidStatus(new_status));
            },
        };
        if !transition_allowed_exec(self.status, ns) {
            return Err(
                AlertError::InvalidTransition(status_str(self.status).to_owned(), new_status),
            );
        }
        let now = Timestamp::now();
        let n = self.status_history.len();
        let at = if n == 0 {
            now.latest(self.created_at)
        } else {
            now.latest(self.status_history[n - 1].transition_time)
        };
        let entry = StatusTransition {
            from_status: self.status,
            to_status: ns,
            transition_time: at,
            transition_notes: Some(transition_notes),
        };
        self.status_history.push(entry);
        self.status = ns;
        self.updated_at = Some(at);
        Ok(())
    }

    /// Sets the resolution notes and refreshes `updated_at`; fails with
    /// `EmptyNotes` exactly when the notes are empty or all whitespace.
    #[verifier::rlimit(100)]
    #[verifier::spinoff_prover]
    pub fn add_resolution_notes(&mut self, notes: String) -> (r: Result<(), AlertError>)
        requires
            old(self)@.wf(),
        ensures
            final(self)@.wf(),
            r is Ok <==> !all_whitespace(notes@),
            r is Err ==> (r matches Err(e) && e matches AlertError::EmptyNotes && *final(self)
                == *old(self)),
            r is Ok ==> {
                &&& final(self)@.resolution_notes == Some(notes@)
                &&& final(self)@.updated_at matches Some(t) && t.wf()
                &&& final(self)@.alert_id == old(self)@.alert_id
                &&& final(self)@.severity == old(self)@.severity
                &&& final(self)@.description == old(self)@.description
                &&& final(self)@.status == old(self)@.status
                &&& final(self)@.created_at == old(self)@.created_at
                &&& final(self)@.user_id == old(self)@.user_id
                &&& final(self)@.history == old(self)@.history
            },
    {
        if str_all_whitespace(notes.as_str()) {
            return Err(AlertError::EmptyNotes);
        }
        self.resolution_notes = Some(notes);
        self.updated_at = Some(Timestamp::now());
        proof {
            lemma_wf_depends_on_core(old(self)@, self@);
        }
        Ok(())
    }

    /// The alert's unique identifier.
    pub fn alert_id(&self) -> (r: &str)
        ensures
            r@ == self@.alert_id,
    {
        self.alert_id.as_str()
    }

    /// The severity name, fixed at creation.
    pub fn severity(&self) -> (r: &'static str)
        ensures
            r@ == severity_name(self@.severity),
    {
        severity_str(self.severity)
    }

    /// The severity as a level.
    pub fn severity_level(&self) -> (r: Severity)
        ensures
            r == self@.severity,
    {
        self.severity
    }

    /// The description given at creation.
    pub fn description(&self) -> (r: &str)
        ensures
            r@ == self@.description,
    {
        self.description.as_str()
    }

    /// The current status name.
    pub fn status(&self) -> (r: &'static str)
        ensures
            r@ == status_name(self@.status),
    {
        status_str(self.status)
    }

    /// The current status as a lifecycle state.
    pub fn status_state(&self) -> (r: Status)
        ensures
            r == self@.status,
    {
        self.status
    }

    /// The actor that created the alert.
    pub fn user_id(&self) -> (r: &str)
        ensures
            r@ == self@.user_id,
    {
        self.user_id.as_str()
    }

    /// The creation time.
    pub fn created_at(&self) -> (r: Timestamp)
        ensures
            r == self@.created_at,
    {
        self.created_at
    }

    /// The time of the last successful update, if any.
    pub fn updated_at(&self) -> (r: Option<Timestamp>)
        ensures
            r == self@.updated_at,
    {
        self.updated_at
    }

    /// The resolution notes, if set.
    pub fn resolution_notes(&self) -> (r: &Option<String>)
        ensures
            r is Some <==> self@.resolution_notes is Some,
            r matches Some(n) ==> self@.resolution_notes == Some(n@),
    {
        &self.resolution_notes
    }

    /// The status-transition history, oldest first.
    pub fn status_history(&self) -> (r: &Vec<StatusTransition>)
        ensures
            r@ == self@.history,
    {
        &self.status_history
    }
}

/// An alert flattened to plain fields, ready for a transport layer to frame.
#[derive(Clone, Debug)]
pub struct AlertRecord {
    pub alert_id: String,
    pub severity: String,
    pub description: String,
    pub status: String,
    pub created_at: Timestamp,
    pub updated_at: Option<Timestamp>,
    pub resolution_notes: Option<String>,
}

impl Alert {
    /// Flattens the alert for the read surface: names for severity and
    /// status, timestamps as seconds plus nanoseconds.
    pub fn to_record(&self) -> (r: AlertRecord)
        ensures
            r.alert_id@ == self@.alert_id,
            r.severity@ == severity_name(self@.severity),
            r.description@ == self@.description,
            r.status@ == status_name(self@.status),
            r.created_at == self@.created_at,
            r.updated_at == self@.updated_at,
            r.resolution_notes is Some <==> self@.resolution_notes is Some,
            r.resolution_notes matches Some(n) ==> self@.resolution_notes == Some(n@),
    {
        AlertRecord {
            alert_id: self.alert_id.clone(),
            severity: severity_str(self.severity).to_owned(),
            description: self.description.clone(),
            status: status_str(self.status).to_owned(),
            created_at: self.created_at,
            updated_at: self.updated_at,
            resolution_notes: match &self.resolution_notes {
                Some(n) => Some(n.clone()),
                None => None,
            },
        }
    }
}

/// The store that owns every alert the engines have raised: creation,
/// lookup by id, and listing.
pub struct AlertStore {
    alerts: Vec<Alert>,
}

impl View for AlertStore {
    type V = Seq<Alert>;

    closed spec fn view(&self) -> Seq<Alert> {
        self.alerts@
    }
}

impl AlertStore {
    /// Every stored alert is well-formed.
    pub open spec fn wf(&self) -> bool {
        forall|i: int| 0 <= i < self@.len() ==> (#[trigger] self@[i])@.wf()
    }

    /// An empty store.
    pub fn new() -> (r: AlertStore)
        ensures
            r@ =~= Seq::<Alert>::empty(),
            r.wf(),
    {
        AlertStore { alerts: Vec::new() }
    }

    /// How many alerts the store holds.
    pub fn len(&self) -> (r: usize)
        ensures
            r == self@.len(),
    {
        self.alerts.len()
    }

    /// Creates an alert and appends it: succeeds exactly for the four
    /// severity levels, returning the new alert's position.
    pub fn create(&mut self, severity: String, description: String, user_id: String) -> (r: Result<
        usize,
        AlertError,
    >)
        requires
            old(self).wf(),
        ensures
            final(self).wf(),
            r is Ok <==> severity_of(severity@) is Some,
            r is Err ==> final(self)@ == old(self)@,
            r matches Err(e) ==> e matches AlertError::InvalidSeverity(s) && s@ == severity@,
            r matches Ok(i) ==> {
                &&& i == old(self)@.len()
                &&& final(self)@.len() == old(self)@.len() + 1
                &&& final(self)@.drop_last() =~= old(self)@
                &&& severity_of(severity@) == Some(final(self)@.last()@.severity)
                &&& final(self)@.last()@.description == description@
                &&& final(self)@.last()@.user_id == user_id@
                &&& final(self)@.last()@.status == Status::New
                &&& final(self)@.last()@.history =~= Seq::<StatusTransition>::empty()
            },
    {
        let alert = match Alert::new(severity, description, user_id) {
            Ok(a) => a,
            Err(e) => {
                return Err(e);
            },
        };
        let i = self.alerts.len();
        self.alerts.push(alert);
        proof {
            assert forall|j: int| 0 <= j < self@.len() implies (#[trigger] self@[j])@.wf() by {
                if j < old(self)@.len() {
                    assert(self@[j] == old(self)@[j]);
                } else {
                    assert(self@[j] == alert);
                }
            }
        }
        Ok(i)
    }

    /// The alert at a position.
    pub fn get(&self, i: usize) -> (r: &Alert)
        requires
            i < self@.len(),
        ensures
            r == self@[i as int],
    {
        &self.alerts[i]
    }

    /// Replaces the alert at a position, for callers that looked one up,
    /// updated it, and hand it back.
    pub fn set(&mut self, i: usize, alert: Alert)
        requires
            i < old(self)@.len(),
            alert@.wf(),
            old(self).wf(),
        ensures
            final(self).wf(),
            final(self)@ =~= old(self)@.update(i as int, alert),
    {
        self.alerts.set(i, alert);
    }

    /// Finds the position of the alert with the given id, if one exists.
    pub fn find_by_id(&self, alert_id: &str) -> (r: Option<usize>)
        ensures
            r matches Some(i) ==> i < self@.len() && self@[i as int]@.alert_id == alert_id@,
            r is None ==> forall|i: int| 0 <= i < self@.len() ==> (#[trigger] self@[i])@.alert_id
                != alert_id@,
    {
        let n = self.alerts.len();
        let mut i: usize = 0;
        while i < n
            invariant
                n == self@.len(),
                0 <= i <= n,
                forall|j: int| 0 <= j < i ==> (#[trigger] self@[j])@.alert_id != alert_id@,
            decreases n - i,
        {
            if str_eq(self.alerts[i].alert_id(), alert_id) {
                return Some(i);
            }
            i += 1;
        }
        None
    }

    /// All alerts, oldest first.
    pub fn list(&self) -> (r: &Vec<Alert>)
        ensures
            r@ == self@,
    {
        &self.alerts
    }
}

/// Well-formedness of an alert rests only on its creation time, status and
/// history: a view that agrees with a well-formed one on those fields is
/// well-formed itself.
pub proof fn lemma_wf_depends_on_core(a: AlertView, b: AlertView)
    requires
        a.wf(),
        b.history == a.history,
        b.status == a.status,
        b.created_at == a.created_at,
    ensures
        b.wf(),
{
}

/// In a well-formed alert the whole history is time-ordered, not only
/// adjacent entries: every earlier entry's timestamp is at or before every
/// later one's.
pub proof fn lemma_history_time_ordered(v: AlertView, i: int, j: int)
    requires
        v.wf(),
        0 <= i <= j < v.history.len(),
    ensures
        v.history[i].transition_time.le(v.history[j].transition_time),
{
}

} // verus!
