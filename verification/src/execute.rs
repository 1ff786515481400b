//! The investigation state machine: the document that starts an execution,
//! how its progress is read from the execution history, and when polling stops.
use vstd::prelude::*;
use crate::error::ClaireError;
use crate::tag::text_or;
use crate::text::{concat_str, ends_with, has_suffix, json_quoted, json_string, owned, same_text};

verus! {

/// The name of the investigation state machine.
pub open spec fn machine_name() -> Seq<char> {
    "claire_investigation"@
}

/// A request to investigate an instance.
#[derive(Debug, Clone)]
pub struct StartInvestigationRequest {
    pub instance_id: String,
    pub reason: String,
    pub isolate: bool,
}

/// The severity that asks the state machine to isolate the instance (10) or not (0).
pub open spec fn severity_text(isolate: bool) -> Seq<char> {
    if isolate {
        "10"@
    } else {
        "0"@
    }
}

/// The execution input: a GuardDuty-like finding for the instance, written
/// as compact JSON with its keys in sorted order, which is how `serde_json`
/// writes an object when it is built without its `preserve_order` feature
/// (as this crate builds it).
pub open spec fn start_document(instance_id: Seq<char>, reason: Seq<char>, isolate: bool) -> Seq<char> {
    "{\"detail\":{\"resource\":{\"instanceDetails\":{\"instanceId\":"@ + json_quoted(instance_id)
        + "},\"resourceType\":\"Instance\"},\"severity\":"@ + severity_text(isolate)
        + "},\"reason\":"@ + json_quoted(reason) + "}"@
}

impl StartInvestigationRequest {
    /// The execution input for this request.
    pub fn as_json(&self) -> (r: String)
        ensures
            r@ == start_document(self.instance_id@, self.reason@, self.isolate),
    {
        let mut r = owned("{\"detail\":{\"resource\":{\"instanceDetails\":{\"instanceId\":");
        let id = json_string(self.instance_id.as_str());
        r.append(id.as_str());
        r.append("},\"resourceType\":\"Instance\"},\"severity\":");
        if self.isolate {
            r.append("10");
        } else {
            r.append("0");
        }
        r.append("},\"reason\":");
        let reason = json_string(self.reason.as_str());
        r.append(reason.as_str());
        r.append("}");
        r
    }
}

/// One member of a history event: its key and, when the member is an object
/// with a string `name`, that name.
#[derive(Debug, Clone)]
pub struct DetailEntry {
    pub key: String,
    pub name: Option<String>,
}

/// The latest state of an execution: its ARN, the type of its last history
/// event, and the members of that event (absent when it is not an object).
#[derive(Debug, Clone)]
pub struct InvestigationStatus {
    pub execution_arn: String,
    pub status: String,
    pub details: Option<Vec<DetailEntry>>,
}

/// The task name found from member `i` on: the `name` of the first member
/// whose key ends with `EventDetails` (empty when it has none), or empty.
pub open spec fn task_name_from(entries: Seq<DetailEntry>, i: int) -> Seq<char>
    decreases entries.len() - i,
{
    if i >= entries.len() || i < 0 {
        Seq::empty()
    } else if has_suffix(entries[i].key@, "EventDetails"@) {
        text_or(entries[i].name, Seq::empty())
    } else {
        task_name_from(entries, i + 1)
    }
}

/// The task name of a status, if its event has members.
pub open spec fn task_name(status: InvestigationStatus) -> Option<Seq<char>> {
    match status.details {
        Some(d) => Some(task_name_from(d@, 0)),
        None => None,
    }
}

impl InvestigationStatus {
    /// The name of the task that the last event concerns.
    pub fn get_task_name(&self) -> (r: Result<String, ClaireError>)
        ensures
            match r {
                Ok(name) => task_name(*self) == Some(name@),
                Err(e) => task_name(*self) is None && e is NoInvestigationDetails,
            },
    {
        let details = match &self.details {
            Some(d) => d,
            None => {
                return Err(ClaireError::NoInvestigationDetails);
            },
        };
        let mut i: usize = 0;
        while i < details.len()
            invariant
                i <= details.len(),
                task_name(*self) == Some(task_name_from(details@, 0)),
                task_name_from(details@, 0) == task_name_from(details@, i as int),
            decreases details.len() - i,
        {
            if ends_with(details[i].key.as_str(), "EventDetails") {
                let name = match &details[i].name {
                    Some(name) => name.clone(),
                    None => String::new(),
                };
                assert(name@ == text_or(details@[i as int].name, Seq::empty()));
                assert(task_name_from(details@, i as int) == name@);
                return Ok(name);
            }
            i = i + 1;
        }
        Ok(String::new())
    }
}

/// The status text of a report: the event type, a space, and the task name.
pub open spec fn status_text(status: Seq<char>, task: Seq<char>) -> Seq<char> {
    status + " "@ + task
}

/// The event types that end an execution.
pub open spec fn finished(status: Seq<char>) -> bool {
    status == "ExecutionAborted"@ || status == "ExecutionFailed"@ || status == "ExecutionSucceeded"@
}

/// What one poll of an execution shows.
#[derive(Debug, Clone)]
pub struct StatusReport {
    /// The status text.
    pub line: String,
    /// The status text differs from the previous one (it is printed in full
    /// then, else only a dot is).
    pub changed: bool,
    /// The execution has not finished: polling goes on.
    pub refresh: bool,
    /// The execution failed (its details are shown then).
    pub failed: bool,
}

/// The status text of the previous poll, empty when there was none.
pub open spec fn previous_text(previous: Option<InvestigationStatus>) -> Option<Seq<char>> {
    match previous {
        None => Some(Seq::empty()),
        Some(p) => match task_name(p) {
            Some(t) => Some(status_text(p.status@, t)),
            None => None,
        },
    }
}

/// `rep` is what a poll of `current` shows after `previous`.
pub open spec fn reports(
    rep: StatusReport,
    current: InvestigationStatus,
    previous: Option<InvestigationStatus>,
) -> bool {
    &&& task_name(current) is Some
    &&& previous_text(previous) is Some
    &&& rep.line@ == status_text(current.status@, task_name(current)->0)
    &&& rep.changed == (rep.line@ != previous_text(previous)->0)
    &&& rep.refresh == !finished(current.status@)
    &&& rep.failed == (!rep.refresh && current.status@ == "ExecutionFailed"@)
}

/// The status text of a status.
fn status_line(status: &InvestigationStatus) -> (r: Result<String, ClaireError>)
    ensures
        match r {
            Ok(line) => task_name(*status) is Some && line@ == status_text(
                status.status@,
                task_name(*status)->0,
            ),
            Err(e) => task_name(*status) is None && e is NoInvestigationDetails,
        },
{
    let task = status.get_task_name()?;
    let mut line = status.status.clone();
    line.append(" ");
    line.append(task.as_str());
    Ok(line)
}

/// What a poll of `current` shows after `previous`. A status whose event
/// has no members gives `NoInvestigationDetails` (the current one is read
/// first).
pub fn status_report(current: &InvestigationStatus, previous: &Option<InvestigationStatus>) -> (r:
    Result<StatusReport, ClaireError>)
    ensures
        match r {
            Ok(rep) => reports(rep, *current, *previous),
            Err(e) => e is NoInvestigationDetails && (task_name(*current) is None
                || previous_text(*previous) is None),
        },
{
    let line = status_line(current)?;
    let before = match previous {
        Some(p) => status_line(p)?,
        None => String::new(),
    };
    let changed = !same_text(line.as_str(), before.as_str());
    let s = current.status.as_str();
    let failed_status = same_text(s, "ExecutionFailed");
    let done = same_text(s, "ExecutionAborted") || failed_status || same_text(s, "ExecutionSucceeded");
    Ok(StatusReport { line, changed, refresh: !done, failed: done && failed_status })
}

/// Polling an execution whose status has not moved shows no change: the
/// report of a status after the same status is a dot, not a new line.
pub proof fn lemma_same_status_unchanged(rep: StatusReport, status: InvestigationStatus)
    requires
        reports(rep, status, Some(status)),
    ensures
        !rep.changed,
{
}

/// A poll shows its line in full exactly when the whole line (the event
/// type, a space and the task name) differs from the previous poll's line,
/// and always on the first poll: two polls with the same event type but
/// different tasks both show their line.
pub proof fn lemma_changed_when_line_differs(
    rep: StatusReport,
    current: InvestigationStatus,
    previous: Option<InvestigationStatus>,
)
    requires
        reports(rep, current, previous),
    ensures
        task_name(current) matches Some(t) && rep.line@ == current.status@ + " "@ + t,
        previous is None ==> rep.changed,
        previous matches Some(p) ==> (task_name(p) matches Some(u) && (rep.changed <==> rep.line@
            != p.status@ + " "@ + u)),
        previous matches Some(p) ==> (p.status@ == current.status@ && task_name(p) != task_name(current)
            ==> rep.changed),
{
    let t = task_name(current)->0;
    let s = current.status@;
    assert(rep.line@ =~= s + " "@ + t);
    if previous is None {
        assert(rep.line@.len() > 0) by {
            reveal_strlit(" ");
        }
        assert(rep.line@ != Seq::<char>::empty());
    }
    if let Some(p) = previous {
        let u = task_name(p)->0;
        if p.status@ == s && task_name(p) != task_name(current) {
            if rep.line@ == p.status@ + " "@ + u {
                reveal_strlit(" ");
                let k: int = s.len() as int + 1;
                assert((s + " "@ + t).subrange(k, (s + " "@ + t).len() as int) =~= t);
                assert((s + " "@ + u).subrange(k, (s + " "@ + u).len() as int) =~= u);
                assert(t =~= u);
                assert(false);
            }
        }
    }
}

/// A poll stops exactly on the event types that end an execution, and a
/// failure is reported only for a failed execution.
pub proof fn lemma_poll_stops_when_finished(
    rep: StatusReport,
    status: InvestigationStatus,
    previous: Option<InvestigationStatus>,
)
    requires
        reports(rep, status, previous),
    ensures
        !rep.refresh <==> finished(status.status@),
        rep.failed ==> status.status@ == "ExecutionFailed"@ && !rep.refresh,
{
}

/// The polling of an execution until it finishes, optionally looking up the
/// id of the investigation that the execution creates.
#[derive(Debug, Clone)]
pub struct StatusWatch {
    /// The last status that was shown while the execution was running.
    pub previous: Option<InvestigationStatus>,
    /// Polling goes on.
    pub refresh: bool,
    /// The investigation id has been found (or is not looked for).
    pub found_id: bool,
}

impl StatusWatch {
    /// A watch that has shown nothing yet.
    pub fn new(look_for_id: bool) -> (r: StatusWatch)
        ensures
            r.previous is None,
            r.refresh,
            r.found_id == !look_for_id,
    {
        StatusWatch { previous: None, refresh: true, found_id: !look_for_id }
    }

    /// The next poll should first look up the investigation id.
    pub fn wants_investigation_id(&self) -> (r: bool)
        ensures
            r == !self.found_id,
    {
        !self.found_id
    }

    /// Records the outcome of a lookup of the investigation id; the result
    /// says whether the id is new (and is to be announced).
    pub fn investigation_id_lookup(&mut self, found: bool) -> (announce: bool)
        ensures
            announce == (!old(self).found_id && found),
            final(self).found_id == (old(self).found_id || found),
            final(self).previous == old(self).previous,
            final(self).refresh == old(self).refresh,
    {
        let announce = !self.found_id && found;
        if announce {
            self.found_id = true;
        }
        announce
    }

    /// Shows a new status: the report compares it with the previous one; a
    /// running execution becomes the previous status, a finished one stops
    /// the polling.
    pub fn observe(&mut self, current: InvestigationStatus) -> (r: Result<StatusReport, ClaireError>)
        ensures
            match r {
                Ok(rep) => {
                    &&& reports(rep, current, old(self).previous)
                    &&& final(self).refresh == rep.refresh
                    &&& final(self).previous == (if rep.refresh {
                        Some(current)
                    } else {
                        old(self).previous
                    })
                    &&& final(self).found_id == old(self).found_id
                },
                Err(e) => e is NoInvestigationDetails && *final(self) == *old(self) && (task_name(current)
                    is None || previous_text(old(self).previous) is None),
            },
    {
        let rep = status_report(&current, &self.previous)?;
        self.refresh = rep.refresh;
        if rep.refresh {
            self.previous = Some(current);
        }
        Ok(rep)
    }
}

/// A state machine as the list of state machines shows it.
#[derive(Debug, Clone)]
pub struct StateMachineItem {
    pub name: String,
    pub state_machine_arn: String,
}

/// The investigation state machine: the first one called `claire_investigation`.
pub fn find_investigation_machine(machines: &Vec<StateMachineItem>) -> (r: Result<
    StateMachineItem,
    ClaireError,
>)
    ensures
        match r {
            Ok(m) => exists|i: int|
                0 <= i < machines@.len() && machines@[i] == m && m.name@ == machine_name() && forall|j: int|
                    0 <= j < i ==> (#[trigger] machines@[j]).name@ != machine_name(),
            Err(e) => e is StateMachineNotFound && forall|j: int|
                0 <= j < machines@.len() ==> (#[trigger] machines@[j]).name@ != machine_name(),
        },
{
    let mut i: usize = 0;
    while i < machines.len()
        invariant
            i <= machines.len(),
            forall|j: int| 0 <= j < i ==> (#[trigger] machines@[j]).name@ != machine_name(),
        decreases machines.len() - i,
    {
        if same_text(machines[i].name.as_str(), "claire_investigation") {
            let m = &machines[i];
            return Ok(StateMachineItem { name: m.name.clone(), state_machine_arn: m.state_machine_arn.clone() });
        }
        i = i + 1;
    }
    Err(ClaireError::StateMachineNotFound)
}

/// A history event: its type and its members.
#[derive(Debug, Clone)]
pub struct HistoryEvent {
    pub event_type: String,
    pub details: Option<Vec<DetailEntry>>,
}

/// The status of an execution from the first event of its history (read
/// newest first); an empty history gives `NoEvents`.
pub fn status_from_history(execution_arn: &str, first_event: Option<HistoryEvent>) -> (r: Result<
    InvestigationStatus,
    ClaireError,
>)
    ensures
        match first_event {
            None => r matches Err(ClaireError::NoEvents),
            Some(ev) => r matches Ok(s) && s.execution_arn@ == execution_arn@ && s.status == ev.event_type
                && s.details == ev.details,
        },
{
    match first_event {
        None => Err(ClaireError::NoEvents),
        Some(ev) => Ok(InvestigationStatus { execution_arn: owned(execution_arn), status: ev.event_type, details: ev.details }),
    }
}

/// A tag of an investigation's alert.
#[derive(Debug, Clone)]
pub struct AlertTag {
    pub key: String,
    pub value: String,
}

/// The execution of an investigation.
#[derive(Debug, Clone)]
pub struct ExecutionDetails {
    pub execution_arn: String,
    pub investigation_id: String,
}

/// The investigation of an instance, which must have been found.
pub fn require_investigation_id(instance_id: &str, found: Option<String>) -> (r: Result<
    String,
    ClaireError,
>)
    ensures
        match found {
            Some(id) => r == Ok::<String, ClaireError>(id),
            None => r matches Err(ClaireError::InstanceNotInvestigated(i)) && i@ == instance_id@,
        },
{
    match found {
        Some(id) => Ok(id),
        None => Err(ClaireError::InstanceNotInvestigated(owned(instance_id))),
    }
}

/// The execution of an investigation: the value of the first alert tag
/// whose key is `CLAIRE_EXEC`.
pub fn execution_details(investigation_id: String, tags: &Vec<AlertTag>) -> (r: Result<
    ExecutionDetails,
    ClaireError,
>)
    ensures
        match r {
            Ok(d) => d.investigation_id == investigation_id && exists|i: int|
                0 <= i < tags@.len() && tags@[i].key@ == "CLAIRE_EXEC"@ && d.execution_arn@ == tags@[i].value@
                    && forall|j: int| 0 <= j < i ==> (#[trigger] tags@[j]).key@ != "CLAIRE_EXEC"@,
            Err(e) => e is ExecutionArnNotFound && forall|j: int|
                0 <= j < tags@.len() ==> (#[trigger] tags@[j]).key@ != "CLAIRE_EXEC"@,
        },
{
    let mut i: usize = 0;
    while i < tags.len()
        invariant
            i <= tags.len(),
            forall|j: int| 0 <= j < i ==> (#[trigger] tags@[j]).key@ != "CLAIRE_EXEC"@,
        decreases tags.len() - i,
    {
        if same_text(tags[i].key.as_str(), "CLAIRE_EXEC") {
            return Ok(ExecutionDetails { execution_arn: tags[i].value.clone(), investigation_id });
        }
        i = i + 1;
    }
    Err(ClaireError::ExecutionArnNotFound)
}

} // verus!
