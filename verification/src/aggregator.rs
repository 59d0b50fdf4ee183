//! The one consumer of the workers' messages. It keeps the progress view
//! (the last state of each worker, the most recent results, how many jobs
//! are through) and writes each result to the job table.

use vstd::prelude::*;

use crate::downloader::{
    DownloadResult, DownloadResultView, DownloaderMessage, DownloaderMessageView, DownloaderState,
    DownloaderStateView,
};
use crate::process_repository::{with_state, ProcessRepository};
use crate::synchronize::RECENT_RESULTS;
use crate::types::{Process, ProcessState, ProcessView};

verus! {

/// The states of a vector of worker states as plain data.
pub open spec fn states_of(states: Seq<DownloaderState>) -> Seq<DownloaderStateView> {
    states.map_values(|state: DownloaderState| state@)
}

/// The results of a vector of results as plain data.
pub open spec fn results_of(results: Seq<DownloadResult>) -> Seq<DownloadResultView> {
    results.map_values(|result: DownloadResult| result@)
}

/// Whether the view has an entry for the worker.
pub open spec fn has_worker(states: Seq<DownloaderStateView>, downloader_id: Seq<char>) -> bool {
    exists|i: int| 0 <= i < states.len() && (#[trigger] states[i]).downloader_id() == downloader_id
}

/// No worker has two entries.
pub open spec fn distinct_workers(states: Seq<DownloaderStateView>) -> bool {
    forall|i: int, j: int|
        0 <= i < j < states.len() ==> (#[trigger] states[i]).downloader_id() != (
        #[trigger] states[j]).downloader_id()
}

/// The worker states after a worker reported a state: its entry is
/// overwritten, or added at the end if it had none.
pub open spec fn record_state(
    states: Seq<DownloaderStateView>,
    state: DownloaderStateView,
) -> Seq<DownloaderStateView> {
    if has_worker(states, state.downloader_id()) {
        states.map_values(
            |entry: DownloaderStateView|
                if entry.downloader_id() == state.downloader_id() {
                    state
                } else {
                    entry
                },
        )
    } else {
        states.push(state)
    }
}

/// The recent results after one more came in: it goes to the front, and
/// what no longer fits falls off the end.
pub open spec fn record_result(
    results: Seq<DownloadResultView>,
    result: DownloadResultView,
) -> Seq<DownloadResultView> {
    let longer = seq![result] + results;
    if longer.len() > RECENT_RESULTS {
        longer.take(RECENT_RESULTS as int)
    } else {
        longer
    }
}

/// The row that a result leaves in the table: finished and skipped jobs
/// carry no error text, a failed job carries the downloader's.
pub open spec fn stored_row(result: DownloadResultView) -> ProcessView {
    match result {
        DownloadResultView::DownloadSkipped { youtube_id, .. } => ProcessView {
            youtube_id,
            state: ProcessState::Skipped,
            error: None,
        },
        DownloadResultView::DownloadFailed { youtube_id, error_message, .. } => ProcessView {
            youtube_id,
            state: ProcessState::Failed,
            error: Some(error_message),
        },
        DownloadResultView::DownloadFinished { youtube_id, .. } => ProcessView {
            youtube_id,
            state: ProcessState::Finished,
            error: None,
        },
    }
}

/// The table after a result is written to it.
pub open spec fn store_result(rows: Seq<ProcessView>, result: DownloadResultView) -> Seq<
    ProcessView,
> {
    let row = stored_row(result);
    with_state(rows, row.youtube_id, row.state, row.error)
}

/// The table after a message: a result is written, a state changes nothing.
pub open spec fn store_message(rows: Seq<ProcessView>, message: DownloaderMessageView) -> Seq<
    ProcessView,
> {
    match message {
        DownloaderMessageView::Result(result) => store_result(rows, result),
        DownloaderMessageView::State(_) => rows,
    }
}

/// One more, unless the counter is at its limit.
pub open spec fn counted(count: nat, limit: nat) -> nat {
    if count < limit {
        count + 1
    } else {
        count
    }
}

/// The progress view as plain data.
pub struct AggregatorView {
    /// The last state that each worker reported, in the order in which the
    /// workers first reported.
    pub states: Seq<DownloaderStateView>,
    /// The most recent results, the latest first.
    pub results: Seq<DownloadResultView>,
    /// How many results came in.
    pub completed: nat,
    /// How many jobs the run has.
    pub total: nat,
    /// How many workers the run has.
    pub workers: nat,
    /// How many messages said that a worker stopped for good.
    pub stopped: nat,
}

impl AggregatorView {
    /// The view at the start of a run.
    pub open spec fn initial(total: nat, workers: nat) -> AggregatorView {
        AggregatorView {
            states: Seq::empty(),
            results: Seq::empty(),
            completed: 0,
            total,
            workers,
            stopped: 0,
        }
    }

    /// The view after a message.
    pub open spec fn apply(self, message: DownloaderMessageView) -> AggregatorView {
        match message {
            DownloaderMessageView::Result(result) => AggregatorView {
                results: record_result(self.results, result),
                completed: counted(self.completed, u32::MAX as nat),
                ..self
            },
            DownloaderMessageView::State(state) => AggregatorView {
                states: record_state(self.states, state),
                stopped: if state.is_terminal() {
                    counted(self.stopped, usize::MAX as nat)
                } else {
                    self.stopped
                },
                ..self
            },
        }
    }

    /// Whether every worker has said that it stopped for good.
    pub open spec fn is_done(self) -> bool {
        self.stopped >= self.workers
    }

    /// What every view satisfies.
    pub open spec fn wf(self) -> bool {
        &&& distinct_workers(self.states)
        &&& self.results.len() <= RECENT_RESULTS
    }
}

/// The consumer's progress view.
pub struct Aggregator {
    downloader_states: Vec<DownloaderState>,
    results: Vec<DownloadResult>,
    progress: (u32, u32),
    workers: usize,
    stopped: usize,
}

impl View for Aggregator {
    type V = AggregatorView;

    closed spec fn view(&self) -> AggregatorView {
        AggregatorView {
            states: states_of(self.downloader_states@),
            results: results_of(self.results@),
            completed: self.progress.0 as nat,
            total: self.progress.1 as nat,
            workers: self.workers as nat,
            stopped: self.stopped as nat,
        }
    }
}

/// A row, if there is one, as plain data.
pub open spec fn row_of(row: Option<Process>) -> Option<ProcessView> {
    match row {
        Some(p) => Some(p@),
        None => None,
    }
}

/// The row that a message has written to the table, if it has written one.
pub open spec fn written_row(message: DownloaderMessageView) -> Option<ProcessView> {
    match message {
        DownloaderMessageView::Result(result) => Some(stored_row(result)),
        DownloaderMessageView::State(_) => None,
    }
}

impl Aggregator {
    /// The view at the start of a run of `total` jobs and `workers` workers.
    pub fn new(total: u32, workers: usize) -> (aggregator: Aggregator)
        ensures
            aggregator@ == AggregatorView::initial(total as nat, workers as nat),
            aggregator@.wf(),
    {
        let aggregator = Aggregator {
            downloader_states: Vec::new(),
            results: Vec::new(),
            progress: (0, total),
            workers,
            stopped: 0,
        };
        assert(aggregator@.states =~= Seq::empty());
        assert(aggregator@.results =~= Seq::empty());
        aggregator
    }

    /// The last state of each worker.
    pub fn downloader_states(&self) -> (states: &Vec<DownloaderState>)
        ensures
            states_of(states@) == self@.states,
    {
        &self.downloader_states
    }

    /// The most recent results, the latest first.
    pub fn results(&self) -> (results: &Vec<DownloadResult>)
        ensures
            results_of(results@) == self@.results,
    {
        &self.results
    }

    /// How many results came in, and how many jobs the run has.
    pub fn progress(&self) -> (progress: (u32, u32))
        ensures
            progress.0 == self@.completed,
            progress.1 == self@.total,
    {
        self.progress
    }

    /// Whether every worker has said that it stopped for good.
    pub fn is_done(&self) -> (done: bool)
        ensures
            done == self@.is_done(),
    {
        self.stopped >= self.workers
    }

    /// Whether to stop consuming: the run is done, or the user asked to
    /// abort it.
    pub fn should_stop(&self, abort_requested: bool) -> (stop: bool)
        ensures
            stop == (abort_requested || self@.is_done()),
    {
        abort_requested || self.is_done()
    }

    /// Where the worker's entry stands.
    fn position(&self, downloader_id: &String) -> (found: Option<usize>)
        ensures
            match found {
                Some(i) => i < self@.states.len() && self@.states[i as int].downloader_id()
                    == downloader_id@,
                None => !has_worker(self@.states, downloader_id@),
            },
    {
        let mut i: usize = 0;
        while i < self.downloader_states.len()
            invariant
                i <= self.downloader_states.len(),
                forall|k: int|
                    0 <= k < i ==> (#[trigger] self@.states[k]).downloader_id() != downloader_id@,
            decreases self.downloader_states.len() - i,
        {
            if *self.downloader_states[i].downloader_id() == *downloader_id {
                return Some(i);
            }
            i += 1;
        }
        None
    }

    /// Overwrites the worker's entry with the state it reported.
    fn record_state(&mut self, state: DownloaderState)
        requires
            old(self)@.wf(),
        ensures
            final(self)@ == old(self)@.apply(DownloaderMessageView::State(state@)),
            final(self)@.wf(),
    {
        if state.is_terminal() && self.stopped < usize::MAX {
            self.stopped = self.stopped + 1;
        }
        match self.position(state.downloader_id()) {
            Some(i) => {
                self.downloader_states.set(i, state);
            },
            None => {
                self.downloader_states.push(state);
            },
        }
        assert(self@.states =~= record_state(old(self)@.states, state@));
    }

    /// Counts a result and puts it in front of the recent ones.
    fn record_result(&mut self, result: DownloadResult)
        requires
            old(self)@.wf(),
        ensures
            final(self)@ == old(self)@.apply(DownloaderMessageView::Result(result@)),
            final(self)@.wf(),
    {
        if self.progress.0 < u32::MAX {
            self.progress.0 = self.progress.0 + 1;
        }
        self.results.insert(0, result);
        self.results.truncate(RECENT_RESULTS);
        assert(self@.results =~= record_result(old(self)@.results, result@));
    }

    /// Takes a message in. A state overwrites its worker's entry in the
    /// view. A result is counted, put in front of the recent results, and
    /// written to the table; the row that was written is returned, for
    /// whoever keeps the table on disk.
    pub fn handle_message(
        &mut self,
        repository: &mut ProcessRepository,
        message: DownloaderMessage,
    ) -> (written: Option<Process>)
        requires
            old(self)@.wf(),
            old(repository).wf(),
        ensures
            final(self)@ == old(self)@.apply(message@),
            final(self)@.wf(),
            final(repository)@ == store_message(old(repository)@, message@),
            final(repository).wf(),
            row_of(written) == written_row(message@),
    {
        match message {
            DownloaderMessage::State(state) => {
                self.record_state(state);
                None
            },
            DownloaderMessage::Result(result) => {
                let row = match &result {
                    DownloadResult::DownloadSkipped { youtube_id, .. } => {
                        repository.skip(youtube_id.as_str());
                        Process {
                            youtube_id: youtube_id.clone(),
                            state: ProcessState::Skipped,
                            error: None,
                        }
                    },
                    DownloadResult::DownloadFailed { youtube_id, error_message, .. } => {
                        repository.fail(youtube_id.as_str(), error_message.as_str());
                        Process {
                            youtube_id: youtube_id.clone(),
                            state: ProcessState::Failed,
                            error: Some(error_message.clone()),
                        }
                    },
                    DownloadResult::DownloadFinished { youtube_id, .. } => {
                        repository.finish(youtube_id.as_str());
                        Process {
                            youtube_id: youtube_id.clone(),
                            state: ProcessState::Finished,
                            error: None,
                        }
                    },
                };
                self.record_result(result);
                Some(row)
            },
        }
    }
}

} // verus!
