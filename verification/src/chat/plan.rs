//! Plan snapshots: the task list that the `update_plan` tool reports, as
//! shown beside a turn.
use vstd::prelude::*;

use crate::text::{owned, str_eq, trim, trim_str};

verus! {

/// A plan as shown to the user.
#[derive(Debug, Clone, PartialEq, Eq)]
pub struct DesktopPlanSnapshot {
    pub title: String,
    pub description: Option<String>,
    pub tasks: Vec<DesktopPlanTask>,
    pub is_streaming: bool,
    pub source_call_id: String,
}

/// One task of a plan.
#[derive(Debug, Clone, PartialEq, Eq)]
pub struct DesktopPlanTask {
    pub id: String,
    pub title: String,
    pub status: DesktopPlanTaskStatus,
}

/// The progress of one task.
#[derive(Debug, Clone, Copy, PartialEq, Eq, Structural)]
pub enum DesktopPlanTaskStatus {
    Pending,
    InProgress,
    Completed,
}

/// The string fields of one task entry of a reported plan, each present only
/// when the entry holds a string there.
#[derive(Debug, Clone, PartialEq, Eq)]
pub struct PlanTaskFields {
    pub id: Option<String>,
    pub title: Option<String>,
    pub status: Option<String>,
}

/// The fields of a reported plan: its title and description when they are
/// strings, its task entries when `tasks` is a list (an entry that is not an
/// object is `None`), and its `is_streaming` flag when it is a boolean.
#[derive(Debug, Clone, PartialEq, Eq)]
pub struct PlanFields {
    pub title: Option<String>,
    pub description: Option<String>,
    pub tasks: Option<Vec<Option<PlanTaskFields>>>,
    pub is_streaming: Option<bool>,
}

/// The view of an optional string.
pub open spec fn opt_str(o: Option<String>) -> Option<Seq<char>> {
    match o {
        Some(s) => Some(s@),
        None => None,
    }
}

/// The content of one task entry.
pub struct PlanTaskFieldsView {
    pub id: Option<Seq<char>>,
    pub title: Option<Seq<char>>,
    pub status: Option<Seq<char>>,
}

impl View for PlanTaskFields {
    type V = PlanTaskFieldsView;

    open spec fn view(&self) -> PlanTaskFieldsView {
        PlanTaskFieldsView {
            id: opt_str(self.id),
            title: opt_str(self.title),
            status: opt_str(self.status),
        }
    }
}

/// The content of a task entry that may not be an object.
pub open spec fn entry_view(e: Option<PlanTaskFields>) -> Option<PlanTaskFieldsView> {
    match e {
        Some(f) => Some(f@),
        None => None,
    }
}

/// The content of a reported plan.
pub struct PlanFieldsView {
    pub title: Option<Seq<char>>,
    pub description: Option<Seq<char>>,
    pub tasks: Option<Seq<Option<PlanTaskFieldsView>>>,
    pub is_streaming: Option<bool>,
}

impl View for PlanFields {
    type V = PlanFieldsView;

    open spec fn view(&self) -> PlanFieldsView {
        PlanFieldsView {
            title: opt_str(self.title),
            description: opt_str(self.description),
            tasks: match self.tasks {
                Some(v) => Some(v@.map_values(|e: Option<PlanTaskFields>| entry_view(e))),
                None => None,
            },
            is_streaming: self.is_streaming,
        }
    }
}

/// The task status that a wire spelling denotes.
pub open spec fn parse_status_spec(raw: Seq<char>) -> Option<DesktopPlanTaskStatus> {
    if raw == "pending"@ {
        Some(DesktopPlanTaskStatus::Pending)
    } else if raw == "in_progress"@ {
        Some(DesktopPlanTaskStatus::InProgress)
    } else if raw == "completed"@ {
        Some(DesktopPlanTaskStatus::Completed)
    } else {
        None
    }
}

/// The task status spelled `raw`, or `None` for any other spelling.
pub fn parse_status(raw: &str) -> (r: Option<DesktopPlanTaskStatus>)
    ensures
        r == parse_status_spec(raw@),
{
    if str_eq(raw, "pending") {
        Some(DesktopPlanTaskStatus::Pending)
    } else if str_eq(raw, "in_progress") {
        Some(DesktopPlanTaskStatus::InProgress)
    } else if str_eq(raw, "completed") {
        Some(DesktopPlanTaskStatus::Completed)
    } else {
        None
    }
}

/// Whether a task entry yields a task: id, title and status present, the
/// trimmed status known, and the trimmed id and title not blank.
pub open spec fn task_accepts(f: PlanTaskFieldsView) -> bool {
    &&& f.id is Some
    &&& f.title is Some
    &&& f.status is Some
    &&& parse_status_spec(trim(f.status->0)) is Some
    &&& trim(f.id->0).len() > 0
    &&& trim(f.title->0).len() > 0
}

/// Whether `t` is the task that entry `f` yields.
pub open spec fn task_is(f: PlanTaskFieldsView, t: DesktopPlanTask) -> bool {
    &&& t.id@ == trim(f.id->0)
    &&& t.title@ == trim(f.title->0)
    &&& Some(t.status) == parse_status_spec(trim(f.status->0))
}

/// The task of one entry, or `None` when the entry is incomplete.
pub fn plan_task_from_fields(f: &PlanTaskFields) -> (r: Option<DesktopPlanTask>)
    ensures
        r is Some <==> task_accepts(f@),
        r matches Some(t) ==> task_is(f@, t),
{
    let id = match &f.id {
        Some(s) => trim_str(s.as_str()),
        None => return None,
    };
    let title = match &f.title {
        Some(s) => trim_str(s.as_str()),
        None => return None,
    };
    let status_raw = match &f.status {
        Some(s) => trim_str(s.as_str()),
        None => return None,
    };
    let status = match parse_status(status_raw.as_str()) {
        Some(s) => s,
        None => return None,
    };
    if id.as_str().is_empty() || title.as_str().is_empty() {
        return None;
    }
    Some(DesktopPlanTask { id, title, status })
}

/// Whether one entry is an object that yields a task.
pub open spec fn entry_accepts(e: Option<PlanTaskFieldsView>) -> bool {
    e matches Some(f) && task_accepts(f)
}

/// Whether every entry of a task list yields a task.
pub open spec fn all_tasks_accept(entries: Seq<Option<PlanTaskFieldsView>>) -> bool {
    forall|i: int| 0 <= i < entries.len() ==> entry_accepts(#[trigger] entries[i])
}

/// Whether a reported plan yields a snapshot: a non-blank title and a task
/// list whose every entry yields a task.
pub open spec fn plan_accepts(p: PlanFieldsView) -> bool {
    &&& p.title is Some
    &&& trim(p.title->0).len() > 0
    &&& p.tasks is Some
    &&& all_tasks_accept(p.tasks->0)
}

/// Whether some task is not completed.
pub open spec fn any_unfinished(tasks: Seq<DesktopPlanTask>) -> bool {
    exists|i: int| 0 <= i < tasks.len() && tasks[i].status != DesktopPlanTaskStatus::Completed
}

/// Whether `out` is the description kept of `d`: trimmed, and absent when blank.
pub open spec fn description_is(d: Option<Seq<char>>, out: Option<String>) -> bool {
    match d {
        Some(d) => if trim(d).len() > 0 {
            out matches Some(x) && x@ == trim(d)
        } else {
            out is None
        },
        None => out is None,
    }
}

/// Whether `s` is the snapshot that plan `p`, reported by call `call_id`, yields.
pub open spec fn snapshot_is(call_id: Seq<char>, p: PlanFieldsView, s: DesktopPlanSnapshot) -> bool {
    let entries = p.tasks->0;
    &&& s.title@ == trim(p.title->0)
    &&& description_is(p.description, s.description)
    &&& s.tasks@.len() == entries.len()
    &&& forall|i: int| 0 <= i < entries.len() ==> task_is(entries[i]->0, #[trigger] s.tasks@[i])
    &&& s.is_streaming == match p.is_streaming {
        Some(b) => b,
        None => any_unfinished(s.tasks@),
    }
    &&& s.source_call_id@ == call_id
}

/// The description of a plan snapshot is the reported description trimmed:
/// present exactly when the plan reports a description that is not blank.
pub proof fn lemma_snapshot_description_is_trimmed(call_id: Seq<char>, p: PlanFieldsView, s: DesktopPlanSnapshot)
    requires
        snapshot_is(call_id, p, s),
    ensures
        (p.description matches Some(d) && trim(d).len() > 0) ==> (s.description matches Some(x) && x@
            == trim(p.description->0)),
        s.description is Some ==> p.description is Some && trim(p.description->0).len() > 0,
        p.description is None ==> s.description is None,
{
}

/// A plan snapshot keeps the reported plan's trimmed title, one task per
/// entry (each with the entry's trimmed id and title), and the call that
/// reported it. It is streaming as the plan says, or, where the plan does
/// not say, exactly while some task is not completed.
pub proof fn lemma_snapshot_follows_the_plan(call_id: Seq<char>, p: PlanFieldsView, s: DesktopPlanSnapshot)
    requires
        snapshot_is(call_id, p, s),
    ensures
        s.title@ == trim(p.title->0),
        s.source_call_id@ == call_id,
        s.tasks@.len() == p.tasks->0.len(),
        forall|i: int|
            0 <= i < s.tasks@.len() ==> (#[trigger] s.tasks@[i]).id@ == trim(p.tasks->0[i]->0.id->0)
                && s.tasks@[i].title@ == trim(p.tasks->0[i]->0.title->0),
        p.is_streaming matches Some(b) ==> s.is_streaming == b,
        p.is_streaming is None ==> (s.is_streaming <==> exists|i: int|
            0 <= i < s.tasks@.len() && (#[trigger] s.tasks@[i]).status != DesktopPlanTaskStatus::Completed),
{
}

/// The three spellings of a task status and what they denote; any other
/// spelling denotes no status.
pub proof fn lemma_status_spellings(raw: Seq<char>)
    ensures
        parse_status_spec("pending"@) == Some(DesktopPlanTaskStatus::Pending),
        parse_status_spec("in_progress"@) == Some(DesktopPlanTaskStatus::InProgress),
        parse_status_spec("completed"@) == Some(DesktopPlanTaskStatus::Completed),
        raw != "pending"@ && raw != "in_progress"@ && raw != "completed"@ ==> parse_status_spec(raw) is None,
{
    reveal_strlit("pending");
    reveal_strlit("in_progress");
    reveal_strlit("completed");
    assert("pending"@[0] == 'p' && "in_progress"@[0] == 'i' && "completed"@[0] == 'c');
}

/// The snapshot of a reported plan, or `None` when the plan lacks a title or
/// holds an incomplete task. Without an explicit flag the plan is streaming
/// while some task is unfinished.
pub fn snapshot_from_output(call_id: &str, p: &PlanFields) -> (r: Option<DesktopPlanSnapshot>)
    ensures
        r is Some <==> plan_accepts(p@),
        r matches Some(s) ==> snapshot_is(call_id@, p@, s),
{
    let title = match &p.title {
        Some(t) => trim_str(t.as_str()),
        None => return None,
    };
    if title.as_str().is_empty() {
        return None;
    }
    let description = match &p.description {
        Some(d) => {
            let t = trim_str(d.as_str());
            if t.as_str().is_empty() {
                None
            } else {
                Some(t)
            }
        },
        None => None,
    };
    let entries = match &p.tasks {
        Some(e) => e,
        None => return None,
    };
    let mut tasks: Vec<DesktopPlanTask> = Vec::new();
    let mut unfinished = false;
    let mut i: usize = 0;
    while i < entries.len()
        invariant
            i <= entries@.len(),
            tasks@.len() == i,
            p.tasks is Some,
            p.tasks->0@ == entries@,
            p@.tasks->0 == entries@.map_values(|e: Option<PlanTaskFields>| entry_view(e)),
            forall|k: int| 0 <= k < i ==> entry_accepts(#[trigger] entry_view(entries@[k])),
            forall|k: int| 0 <= k < i ==> task_is(entry_view(entries@[k])->0, #[trigger] tasks@[k]),
            unfinished == any_unfinished(tasks@),
        decreases entries@.len() - i,
    {
        let task = match &entries[i] {
            Some(f) => match plan_task_from_fields(f) {
                Some(t) => t,
                None => {
                    assert(!entry_accepts(entry_view(entries@[i as int])));
                    assert(p@.tasks->0[i as int] == entry_view(entries@[i as int]));
                    return None;
                },
            },
            None => {
                assert(!entry_accepts(entry_view(entries@[i as int])));
                assert(p@.tasks->0[i as int] == entry_view(entries@[i as int]));
                return None;
            },
        };
        if task.status != DesktopPlanTaskStatus::Completed {
            unfinished = true;
        }
        let ghost before = tasks@;
        tasks.push(task);
        assert(tasks@ == before.push(task));
        assert(any_unfinished(tasks@) == (any_unfinished(before) || task.status
            != DesktopPlanTaskStatus::Completed)) by {
            if any_unfinished(before) {
                let k = choose|k: int| 0 <= k < before.len() && before[k].status
                    != DesktopPlanTaskStatus::Completed;
                assert(tasks@[k] == before[k]);
            }
            if any_unfinished(tasks@) {
                let k = choose|k: int| 0 <= k < tasks@.len() && tasks@[k].status
                    != DesktopPlanTaskStatus::Completed;
                if k < before.len() {
                    assert(before[k] == tasks@[k]);
                }
            }
            if task.status != DesktopPlanTaskStatus::Completed {
                assert(tasks@[before.len() as int] == task);
            }
        }
        i = i + 1;
    }
    let is_streaming = match p.is_streaming {
        Some(b) => b,
        None => unfinished,
    };
    Some(
        DesktopPlanSnapshot {
            title,
            description,
            tasks,
            is_streaming,
            source_call_id: owned(call_id),
        },
    )
}

} // verus!
