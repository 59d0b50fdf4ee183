//! A synchronization run: which jobs it takes up, and how the messages of
//! its workers are folded into the progress view and into the job table.

use vstd::prelude::*;

use crate::downloader::texts;
use crate::process_repository::{in_state, rows_of, ProcessRepository};
use crate::types::{Process, ProcessState, ProcessView};

verus! {

/// How many results the progress view keeps.
pub const RECENT_RESULTS: usize = 40;

/// The rows that a run takes up: the pending ones, and before them the
/// failed ones if failed jobs are tried again.
pub open spec fn selected(rows: Seq<ProcessView>, retry: bool) -> Seq<ProcessView> {
    if retry {
        in_state(rows, ProcessState::Failed) + in_state(rows, ProcessState::Pending)
    } else {
        in_state(rows, ProcessState::Pending)
    }
}

/// The identifiers of a sequence of rows.
pub open spec fn ids_of(rows: Seq<ProcessView>) -> Seq<Seq<char>> {
    rows.map_values(|row: ProcessView| row.youtube_id)
}

/// Takes from the table the jobs of a run.
pub fn select_processes(repository: &ProcessRepository, retry: bool) -> (processes: Vec<Process>)
    ensures
        rows_of(processes@) == selected(repository@, retry),
{
    let mut pending = repository.get_by_state(ProcessState::Pending);
    if retry {
        let mut processes = repository.get_by_state(ProcessState::Failed);
        processes.append(&mut pending);
        assert(rows_of(processes@) =~= selected(repository@, retry));
        processes
    } else {
        pending
    }
}

/// No name occurs twice.
pub open spec fn distinct_names(names: Seq<Seq<char>>) -> bool {
    forall|i: int, j: int| 0 <= i < j < names.len() ==> names[i] != names[j]
}

/// Whether no name occurs twice.
pub fn names_are_distinct(names: &Vec<String>) -> (distinct: bool)
    ensures
        distinct == distinct_names(texts(names@)),
{
    let mut j: usize = 0;
    while j < names.len()
        invariant
            j <= names.len(),
            forall|a: int, b: int| 0 <= a < b < j ==> texts(names@)[a] != texts(names@)[b],
        decreases names.len() - j,
    {
        let mut i: usize = 0;
        while i < j
            invariant
                i <= j < names.len(),
                forall|a: int| 0 <= a < i ==> texts(names@)[a] != texts(names@)[j as int],
            decreases j - i,
        {
            if names[i] == names[j] {
                assert(texts(names@)[i as int] == texts(names@)[j as int]);
                return false;
            }
            i += 1;
        }
        j += 1;
    }
    true
}

/// What a run works through, and with which workers.
#[derive(Debug, PartialEq, Eq)]
pub struct RunPlan {
    /// The jobs, in the order in which they are queued.
    pub youtube_ids: Vec<String>,
    /// The names of the workers, one worker for each.
    pub downloader_ids: Vec<String>,
    /// The number of jobs.
    pub total: u32,
}

/// Why a run cannot be planned.
#[derive(Clone, Copy, Debug, PartialEq, Eq, Structural)]
pub enum PlanError {
    /// Two workers would carry the same name.
    DuplicateDownloaderId,
    /// There are more jobs than the progress counter can count.
    TooManyJobs,
}

/// A plan as plain data.
pub struct RunPlanView {
    pub youtube_ids: Seq<Seq<char>>,
    pub downloader_ids: Seq<Seq<char>>,
    pub total: nat,
}

impl View for RunPlan {
    type V = RunPlanView;

    open spec fn view(&self) -> RunPlanView {
        RunPlanView {
            youtube_ids: texts(self.youtube_ids@),
            downloader_ids: texts(self.downloader_ids@),
            total: self.total as nat,
        }
    }
}

/// A plan, if there is one, as plain data.
pub open spec fn plan_of(plan: Option<RunPlan>) -> Option<RunPlanView> {
    match plan {
        Some(p) => Some(p@),
        None => None,
    }
}

/// The plan for a table, or why there is none. With no job to take up there
/// is nothing to do, whatever the workers are called. Otherwise the workers'
/// names must differ and the jobs must be countable; the plan then queues
/// the selected jobs in their order, for those workers.
pub open spec fn planned(rows: Seq<ProcessView>, retry: bool, downloader_ids: Seq<Seq<char>>) -> Result<
    Option<RunPlanView>,
    PlanError,
> {
    let jobs = ids_of(selected(rows, retry));
    if jobs.len() == 0 {
        Ok(None)
    } else if !distinct_names(downloader_ids) {
        Err(PlanError::DuplicateDownloaderId)
    } else if jobs.len() > u32::MAX {
        Err(PlanError::TooManyJobs)
    } else {
        Ok(Some(RunPlanView { youtube_ids: jobs, downloader_ids, total: jobs.len() }))
    }
}

/// A planning result as plain data.
pub open spec fn planning_of(result: Result<Option<RunPlan>, PlanError>) -> Result<
    Option<RunPlanView>,
    PlanError,
> {
    match result {
        Ok(plan) => Ok(plan_of(plan)),
        Err(e) => Err(e),
    }
}

/// Plans a run over the table's pending jobs, and over its failed ones too
/// if they are to be tried again. `Ok(None)` says that there is nothing to
/// do: no worker is needed and nothing is to be written.
pub fn plan_run(repository: &ProcessRepository, retry: bool, downloader_ids: Vec<String>) -> (plan:
    Result<Option<RunPlan>, PlanError>)
    ensures
        planning_of(plan) == planned(repository@, retry, texts(downloader_ids@)),
{
    let processes = select_processes(repository, retry);
    let count = processes.len();
    if count == 0 {
        return Ok(None);
    }
    if !names_are_distinct(&downloader_ids) {
        return Err(PlanError::DuplicateDownloaderId);
    }
    if count > u32::MAX as usize {
        return Err(PlanError::TooManyJobs);
    }
    let mut youtube_ids: Vec<String> = Vec::new();
    let mut i: usize = 0;
    while i < count
        invariant
            i <= count == processes@.len(),
            texts(youtube_ids@) == ids_of(rows_of(processes@)).take(i as int),
        decreases count - i,
    {
        let id = processes[i].youtube_id.clone();
        assert(id@ == ids_of(rows_of(processes@))[i as int]);
        let ghost before = texts(youtube_ids@);
        youtube_ids.push(id);
        assert(texts(youtube_ids@) =~= before.push(id@));
        assert(texts(youtube_ids@) =~= ids_of(rows_of(processes@)).take(i + 1));
        i += 1;
    }
    assert(ids_of(rows_of(processes@)).take(count as int) =~= ids_of(rows_of(processes@)));
    Ok(Some(RunPlan { youtube_ids, downloader_ids, total: count as u32 }))
}

/// How many workers a run has unless told otherwise.
pub const DOWNLOADER_COUNT: usize = 10;

/// The names of the workers of a run that is told no others.
pub open spec fn default_names() -> Seq<Seq<char>> {
    seq![
        "Alder"@,
        "Birch"@,
        "Cedar"@,
        "Dogwood"@,
        "Elm"@,
        "Fir"@,
        "Ginkgo"@,
        "Hazel"@,
        "Juniper"@,
        "Larch"@,
    ]
}

/// Gives the names of the workers of a run that is told no others: as many
/// as `DOWNLOADER_COUNT`, no two alike.
pub fn default_downloader_ids() -> (names: Vec<String>)
    ensures
        texts(names@) == default_names(),
        names@.len() == DOWNLOADER_COUNT,
        distinct_names(texts(names@)),
{
    let mut names: Vec<String> = Vec::new();
    names.push("Alder".to_owned());
    names.push("Birch".to_owned());
    names.push("Cedar".to_owned());
    names.push("Dogwood".to_owned());
    names.push("Elm".to_owned());
    names.push("Fir".to_owned());
    names.push("Ginkgo".to_owned());
    names.push("Hazel".to_owned());
    names.push("Juniper".to_owned());
    names.push("Larch".to_owned());
    proof {
        assert(texts(names@) =~= default_names());
        reveal_strlit("Alder");
        reveal_strlit("Birch");
        reveal_strlit("Cedar");
        reveal_strlit("Dogwood");
        reveal_strlit("Elm");
        reveal_strlit("Fir");
        reveal_strlit("Ginkgo");
        reveal_strlit("Hazel");
        reveal_strlit("Juniper");
        reveal_strlit("Larch");
        let initials = seq!['A', 'B', 'C', 'D', 'E', 'F', 'G', 'H', 'J', 'L'];
        assert forall|i: int| 0 <= i < 10 implies (#[trigger] texts(names@)[i]).len() > 0 && texts(
            names@,
        )[i][0] == initials[i] by {}
        assert forall|i: int, j: int| 0 <= i < j < 10 implies texts(names@)[i] != texts(names@)[j] by {
            assert(texts(names@)[i][0] == initials[i]);
            assert(texts(names@)[j][0] == initials[j]);
        }
    }
    names
}

} // verus!
