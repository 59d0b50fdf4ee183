//! Whole runs: what a stream of messages leaves in the progress view and in
//! the job table, and what holds of every run.

use vstd::prelude::*;
use vstd::set_lib::lemma_len_subset;

use crate::aggregator::{
    distinct_workers, has_worker, record_state, store_message, stored_row, AggregatorView,
};
use crate::downloader::{
    downloading, is_terminal_message, lemma_downloading_precedes_result, run,
    DownloaderMessageView, DownloaderStateView, DownloaderView, WorkerEventView,
};
use crate::process_repository::in_state;
use crate::synchronize::selected;
use crate::types::{ProcessState, ProcessView};

verus! {

/// The progress view after a stream of messages.
pub open spec fn view_after(view: AggregatorView, messages: Seq<DownloaderMessageView>) -> AggregatorView
    decreases messages.len(),
{
    if messages.len() == 0 {
        view
    } else {
        view_after(view, messages.drop_last()).apply(messages.last())
    }
}

/// The job table after a stream of messages.
pub open spec fn table_after(rows: Seq<ProcessView>, messages: Seq<DownloaderMessageView>) -> Seq<
    ProcessView,
>
    decreases messages.len(),
{
    if messages.len() == 0 {
        rows
    } else {
        store_message(table_after(rows, messages.drop_last()), messages.last())
    }
}

/// Whether a message is a result for the job.
pub open spec fn is_result_for(message: DownloaderMessageView, youtube_id: Seq<char>) -> bool {
    message matches DownloaderMessageView::Result(result) && result.youtube_id() == youtube_id
}

/// The jobs of the results of a stream, in the order of the stream.
pub open spec fn result_jobs(messages: Seq<DownloaderMessageView>) -> Seq<Seq<char>>
    decreases messages.len(),
{
    if messages.len() == 0 {
        Seq::empty()
    } else {
        let before = result_jobs(messages.drop_last());
        match messages.last() {
            DownloaderMessageView::Result(result) => before.push(result.youtube_id()),
            DownloaderMessageView::State(_) => before,
        }
    }
}

/// The worker states that say that a job is being downloaded.
pub open spec fn downloading_now(states: Seq<DownloaderStateView>) -> Seq<DownloaderStateView> {
    states.filter(|state: DownloaderStateView| state is Downloading)
}

/// The names of the workers that have an entry.
pub open spec fn worker_ids(states: Seq<DownloaderStateView>) -> Seq<Seq<char>> {
    states.map_values(|state: DownloaderStateView| state.downloader_id())
}

/// Recording a state keeps one entry for each worker, and brings in no
/// worker but the one that reported.
proof fn lemma_record_state_keeps_workers(
    states: Seq<DownloaderStateView>,
    state: DownloaderStateView,
    workers: Set<Seq<char>>,
)
    requires
        distinct_workers(states),
        forall|i: int| 0 <= i < states.len() ==> workers.contains((#[trigger] states[i]).downloader_id()),
        workers.contains(state.downloader_id()),
    ensures
        distinct_workers(record_state(states, state)),
        forall|i: int|
            0 <= i < record_state(states, state).len() ==> workers.contains(
                (#[trigger] record_state(states, state)[i]).downloader_id(),
            ),
{
    let after = record_state(states, state);
    if has_worker(states, state.downloader_id()) {
        assert forall|i: int| 0 <= i < after.len() implies (#[trigger] after[i]).downloader_id()
            == states[i].downloader_id() by {}
    } else {
        assert forall|i: int| 0 <= i < states.len() implies (#[trigger] after[i]) == states[i] by {}
        assert forall|i: int, j: int| 0 <= i < j < after.len() implies (#[trigger] after[i]).downloader_id()
            != (#[trigger] after[j]).downloader_id() by {
            if j == states.len() {
                assert(states[i].downloader_id() != state.downloader_id());
            }
        }
    }
}

/// A stream of messages from a set of workers leaves one entry for each
/// worker that reported, and none for any other.
proof fn lemma_view_after_keeps_workers(
    view: AggregatorView,
    messages: Seq<DownloaderMessageView>,
    workers: Set<Seq<char>>,
)
    requires
        distinct_workers(view.states),
        forall|i: int|
            0 <= i < view.states.len() ==> workers.contains((#[trigger] view.states[i]).downloader_id()),
        forall|i: int|
            0 <= i < messages.len() ==> workers.contains((#[trigger] messages[i]).downloader_id()),
    ensures
        distinct_workers(view_after(view, messages).states),
        forall|i: int|
            0 <= i < view_after(view, messages).states.len() ==> workers.contains(
                (#[trigger] view_after(view, messages).states[i]).downloader_id(),
            ),
    decreases messages.len(),
{
    if messages.len() > 0 {
        let front = messages.drop_last();
        assert forall|i: int| 0 <= i < front.len() implies workers.contains(
            (#[trigger] front[i]).downloader_id(),
        ) by {
            assert(front[i] == messages[i]);
        }
        lemma_view_after_keeps_workers(view, front, workers);
        let before = view_after(view, front);
        assert(workers.contains(messages[messages.len() - 1].downloader_id()));
        match messages.last() {
            DownloaderMessageView::State(state) => {
                lemma_record_state_keeps_workers(before.states, state, workers);
            },
            DownloaderMessageView::Result(_) => {},
        }
    }
}

/// With a pool of workers, however many jobs there are and whatever the
/// workers report, the view never shows more jobs being downloaded than
/// there are workers: each worker has one entry, and an entry names one job.
pub proof fn lemma_downloads_bounded_by_workers(
    total: nat,
    workers: Set<Seq<char>>,
    messages: Seq<DownloaderMessageView>,
)
    requires
        workers.finite(),
        forall|i: int|
            0 <= i < messages.len() ==> workers.contains((#[trigger] messages[i]).downloader_id()),
    ensures
        downloading_now(view_after(AggregatorView::initial(total, workers.len()), messages).states).len()
            <= workers.len(),
{
    let start = AggregatorView::initial(total, workers.len());
    lemma_view_after_keeps_workers(start, messages, workers);
    let states = view_after(start, messages).states;
    let ids = worker_ids(states);
    assert(ids.no_duplicates()) by {
        assert forall|i: int, j: int| 0 <= i < ids.len() && 0 <= j < ids.len() && i != j implies ids[i]
            != ids[j] by {
            if i < j {
                assert(states[i].downloader_id() != states[j].downloader_id());
            } else {
                assert(states[j].downloader_id() != states[i].downloader_id());
            }
        }
    }
    ids.unique_seq_to_set();
    assert(ids.to_set().subset_of(workers)) by {
        assert forall|id: Seq<char>| ids.to_set().contains(id) implies workers.contains(id) by {
            let i = choose|i: int| 0 <= i < ids.len() && ids[i] == id;
            assert(workers.contains(states[i].downloader_id()));
        }
    }
    lemma_len_subset(ids.to_set(), workers);
    states.lemma_filter_len(|state: DownloaderStateView| state is Downloading);
}

/// The results of the first messages of a stream are the first results of
/// the stream.
proof fn lemma_result_jobs_prefix(messages: Seq<DownloaderMessageView>, n: int)
    requires
        0 <= n <= messages.len(),
    ensures
        result_jobs(messages.take(n)).is_prefix_of(result_jobs(messages)),
    decreases messages.len(),
{
    if n == messages.len() {
        assert(messages.take(n) =~= messages);
    } else {
        let front = messages.drop_last();
        lemma_result_jobs_prefix(front, n);
        assert(front.take(n) =~= messages.take(n));
    }
}

/// Where a result stands among the results of its stream.
proof fn lemma_result_rank(messages: Seq<DownloaderMessageView>, i: int) -> (rank: int)
    requires
        0 <= i < messages.len(),
        messages[i] is Result,
    ensures
        rank == result_jobs(messages.take(i)).len(),
        0 <= rank < result_jobs(messages).len(),
        result_jobs(messages)[rank] == messages[i]->Result_0.youtube_id(),
{
    let upto = messages.take(i + 1);
    assert(upto.drop_last() =~= messages.take(i));
    assert(upto.last() == messages[i]);
    lemma_result_jobs_prefix(messages, i + 1);
    let rank = result_jobs(messages.take(i)).len() as int;
    assert(result_jobs(upto)[rank] == messages[i]->Result_0.youtube_id());
    rank
}

/// Of two results of a stream the later one stands later among the results.
proof fn lemma_result_rank_grows(messages: Seq<DownloaderMessageView>, i: int, j: int)
    requires
        0 <= i < j < messages.len(),
        messages[i] is Result,
    ensures
        result_jobs(messages.take(i)).len() < result_jobs(messages.take(j)).len(),
{
    let upto = messages.take(j);
    lemma_result_jobs_prefix(upto, i + 1);
    assert(upto.take(i + 1) =~= messages.take(i + 1));
    assert(messages.take(i + 1).drop_last() =~= messages.take(i));
    assert(messages.take(i + 1).last() == messages[i]);
}

/// Every job among the results of a stream is the job of one of its
/// messages.
proof fn lemma_result_job_has_message(messages: Seq<DownloaderMessageView>, rank: int) -> (i: int)
    requires
        0 <= rank < result_jobs(messages).len(),
    ensures
        0 <= i < messages.len(),
        is_result_for(messages[i], result_jobs(messages)[rank]),
    decreases messages.len(),
{
    let front = messages.drop_last();
    if rank < result_jobs(front).len() {
        let i = lemma_result_job_has_message(front, rank);
        assert(front[i] == messages[i]);
        i
    } else {
        messages.len() - 1
    }
}

/// A stream of messages counts its results, up to the counter's limit.
proof fn lemma_completed_counts_results(view: AggregatorView, messages: Seq<DownloaderMessageView>)
    requires
        view.completed + result_jobs(messages).len() <= u32::MAX,
    ensures
        view_after(view, messages).completed == view.completed + result_jobs(messages).len(),
    decreases messages.len(),
{
    if messages.len() > 0 {
        lemma_completed_counts_results(view, messages.drop_last());
    }
}

/// What a stream of messages leaves in a row of the table: the row keeps
/// its place and its identifier; it is untouched if no result is for its
/// job; otherwise it holds what the last result for its job says.
proof fn lemma_table_after_row(
    rows: Seq<ProcessView>,
    messages: Seq<DownloaderMessageView>,
    k: int,
)
    requires
        0 <= k < rows.len(),
    ensures
        table_after(rows, messages).len() == rows.len(),
        table_after(rows, messages)[k].youtube_id == rows[k].youtube_id,
        (forall|i: int|
            0 <= i < messages.len() ==> !is_result_for(#[trigger] messages[i], rows[k].youtube_id))
            ==> table_after(rows, messages)[k] == rows[k],
        forall|i: int|
            0 <= i < messages.len() && is_result_for(#[trigger] messages[i], rows[k].youtube_id) && (
            forall|j: int|
                i < j < messages.len() ==> !is_result_for(#[trigger] messages[j], rows[k].youtube_id))
                ==> table_after(rows, messages)[k] == stored_row(messages[i]->Result_0),
    decreases messages.len(),
{
    if messages.len() > 0 {
        let front = messages.drop_last();
        let last = messages.last();
        let id = rows[k].youtube_id;
        lemma_table_after_row(rows, front, k);
        let before = table_after(rows, front);
        assert(messages[messages.len() - 1] == last);
        if is_result_for(last, id) {
            assert forall|i: int|
                0 <= i < messages.len() && is_result_for(#[trigger] messages[i], id) && (forall|j: int|

                    i < j < messages.len() ==> !is_result_for(
                        #[trigger] messages[j],
                        id,
                    )) implies table_after(rows, messages)[k] == stored_row(
                messages[i]->Result_0,
            ) by {
                if i < messages.len() - 1 {
                    assert(is_result_for(messages[messages.len() - 1], id));
                }
            }
        } else {
            assert(table_after(rows, messages)[k] == before[k]);
            if forall|i: int|
                0 <= i < messages.len() ==> !is_result_for(#[trigger] messages[i], id) {
                assert forall|i: int| 0 <= i < front.len() implies !is_result_for(
                    #[trigger] front[i],
                    id,
                ) by {
                    assert(front[i] == messages[i]);
                }
            }
            assert forall|i: int|
                0 <= i < messages.len() && is_result_for(#[trigger] messages[i], id) && (forall|j: int|

                    i < j < messages.len() ==> !is_result_for(
                        #[trigger] messages[j],
                        id,
                    )) implies table_after(rows, messages)[k] == stored_row(
                messages[i]->Result_0,
            ) by {
                assert(i < front.len());
                assert(front[i] == messages[i]);
                assert forall|j: int| i < j < front.len() implies !is_result_for(
                    #[trigger] front[j],
                    id,
                ) by {
                    assert(front[j] == messages[j]);
                }
            }
        }
    }
}

/// Whether a row holds what came of an attempt: it is finished, failed or
/// skipped.
pub open spec fn is_settled(row: ProcessView) -> bool {
    row.state == ProcessState::Finished || row.state == ProcessState::Failed || row.state
        == ProcessState::Skipped
}

/// A run that is through, in which each job that was handed out got its one
/// result, leaves each of those jobs finished, failed or skipped, as its
/// result says, and every other row as it was; and it has counted as many
/// results as jobs were handed out.
pub proof fn lemma_completed_run_settles_every_job(
    rows: Seq<ProcessView>,
    dispatched: Seq<Seq<char>>,
    workers: nat,
    messages: Seq<DownloaderMessageView>,
)
    requires
        dispatched.no_duplicates(),
        dispatched.len() <= u32::MAX,
        result_jobs(messages).no_duplicates(),
        result_jobs(messages).to_set() == dispatched.to_set(),
    ensures
        view_after(AggregatorView::initial(dispatched.len(), workers), messages).completed
            == dispatched.len(),
        table_after(rows, messages).len() == rows.len(),
        forall|k: int|
            0 <= k < rows.len() ==> (#[trigger] table_after(rows, messages)[k]).youtube_id
                == rows[k].youtube_id,
        forall|k: int|
            0 <= k < rows.len() && !dispatched.contains(rows[k].youtube_id) ==> (
            #[trigger] table_after(rows, messages)[k]) == rows[k],
        forall|k: int|
            0 <= k < rows.len() && dispatched.contains(rows[k].youtube_id) ==> is_settled(
                #[trigger] table_after(rows, messages)[k],
            ),
        forall|k: int, i: int|
            0 <= k < rows.len() && 0 <= i < messages.len() && is_result_for(
                #[trigger] messages[i],
                rows[k].youtube_id,
            ) ==> (#[trigger] table_after(rows, messages)[k]) == stored_row(messages[i]->Result_0),
{
    let jobs = result_jobs(messages);
    lemma_table_after_len(rows, messages);
    jobs.unique_seq_to_set();
    dispatched.unique_seq_to_set();
    lemma_completed_counts_results(AggregatorView::initial(dispatched.len(), workers), messages);
    assert forall|k: int, i: int|
        0 <= k < rows.len() && 0 <= i < messages.len() && is_result_for(
            #[trigger] messages[i],
            rows[k].youtube_id,
        ) implies (#[trigger] table_after(rows, messages)[k]) == stored_row(
        messages[i]->Result_0,
    ) by {
        let id = rows[k].youtube_id;
        assert forall|j: int| i < j < messages.len() implies !is_result_for(
            #[trigger] messages[j],
            id,
        ) by {
            if is_result_for(messages[j], id) {
                let a = lemma_result_rank(messages, i);
                let b = lemma_result_rank(messages, j);
                lemma_result_rank_grows(messages, i, j);
                assert(jobs[a] == jobs[b]);
            }
        }
        lemma_table_after_row(rows, messages, k);
    }
    assert forall|k: int| 0 <= k < rows.len() implies {
        &&& table_after(rows, messages).len() == rows.len()
        &&& (#[trigger] table_after(rows, messages)[k]).youtube_id == rows[k].youtube_id
        &&& !dispatched.contains(rows[k].youtube_id) ==> table_after(rows, messages)[k] == rows[k]
        &&& dispatched.contains(rows[k].youtube_id) ==> is_settled(table_after(rows, messages)[k])
    } by {
        let id = rows[k].youtube_id;
        lemma_table_after_row(rows, messages, k);
        if dispatched.contains(id) {
            assert(dispatched.to_set().contains(id));
            assert(jobs.to_set().contains(id));
            let rank = choose|rank: int| 0 <= rank < jobs.len() && jobs[rank] == id;
            let i = lemma_result_job_has_message(messages, rank);
            assert(table_after(rows, messages)[k] == stored_row(messages[i]->Result_0));
        } else {
            assert forall|i: int| 0 <= i < messages.len() implies !is_result_for(
                #[trigger] messages[i],
                id,
            ) by {
                if is_result_for(messages[i], id) {
                    let rank = lemma_result_rank(messages, i);
                    assert(jobs.to_set().contains(jobs[rank]));
                    assert(dispatched.to_set().contains(id));
                }
            }
        }
    }
}

/// A stream of messages neither adds a row to the table nor takes one away.
pub proof fn lemma_table_after_len(rows: Seq<ProcessView>, messages: Seq<DownloaderMessageView>)
    ensures
        table_after(rows, messages).len() == rows.len(),
    decreases messages.len(),
{
    if messages.len() > 0 {
        lemma_table_after_len(rows, messages.drop_last());
    }
}

/// A run that tries failed jobs again takes up exactly the rows that are
/// failed or pending: every failed job is tried again, no pending job is
/// left out, and nothing else is touched. Where no job is pending, the run
/// takes up the failed jobs and nothing else.
pub proof fn lemma_retry_takes_failed_and_pending(rows: Seq<ProcessView>, row: ProcessView)
    ensures
        selected(rows, true).contains(row) <==> rows.contains(row) && (row.state
            == ProcessState::Failed || row.state == ProcessState::Pending),
        selected(rows, false).contains(row) <==> rows.contains(row) && row.state
            == ProcessState::Pending,
        in_state(rows, ProcessState::Pending).len() == 0 ==> selected(rows, true) == in_state(
            rows,
            ProcessState::Failed,
        ),
{
    let failed = in_state(rows, ProcessState::Failed);
    let pending = in_state(rows, ProcessState::Pending);
    lemma_in_state_contains(rows, ProcessState::Failed, row);
    lemma_in_state_contains(rows, ProcessState::Pending, row);
    if (failed + pending).contains(row) {
        let i = choose|i: int| 0 <= i < (failed + pending).len() && (failed + pending)[i] == row;
        if i < failed.len() {
            assert(failed[i] == row);
        } else {
            assert(pending[i - failed.len()] == row);
        }
    }
    if failed.contains(row) {
        let i = choose|i: int| 0 <= i < failed.len() && failed[i] == row;
        assert((failed + pending)[i] == row);
    }
    if pending.contains(row) {
        let i = choose|i: int| 0 <= i < pending.len() && pending[i] == row;
        assert((failed + pending)[failed.len() + i] == row);
    }
    if pending.len() == 0 {
        assert(failed + pending =~= failed);
    }
}

/// The rows in a state are the rows of the table that are in that state.
pub proof fn lemma_in_state_contains(rows: Seq<ProcessView>, state: ProcessState, row: ProcessView)
    ensures
        in_state(rows, state).contains(row) <==> rows.contains(row) && row.state == state,
{
    let pred = |r: ProcessView| r.state == state;
    if in_state(rows, state).contains(row) {
        let i = choose|i: int| 0 <= i < rows.filter(pred).len() && rows.filter(pred)[i] == row;
        rows.lemma_filter_pred(pred, i);
        rows.lemma_filter_contains_rev(pred, row);
    }
    if rows.contains(row) && row.state == state {
        let i = choose|i: int| 0 <= i < rows.len() && rows[i] == row;
        rows.lemma_filter_contains(pred, i);
    }
}

/// How many messages of a stream say that a worker stopped for good.
pub open spec fn terminal_messages(messages: Seq<DownloaderMessageView>) -> nat
    decreases messages.len(),
{
    if messages.len() == 0 {
        0
    } else if is_terminal_message(messages.last()) {
        terminal_messages(messages.drop_last()) + 1
    } else {
        terminal_messages(messages.drop_last())
    }
}

/// The view counts the messages that say that a worker stopped, up to the
/// counter's limit.
proof fn lemma_stopped_counts_terminal_messages(
    view: AggregatorView,
    messages: Seq<DownloaderMessageView>,
)
    requires
        view.stopped == 0,
    ensures
        view_after(view, messages).workers == view.workers,
        view_after(view, messages).stopped == if terminal_messages(messages) <= usize::MAX {
            terminal_messages(messages)
        } else {
            usize::MAX as nat
        },
    decreases messages.len(),
{
    if messages.len() > 0 {
        lemma_stopped_counts_terminal_messages(view, messages.drop_last());
    }
}

/// A run is done exactly when as many messages have said that a worker
/// stopped for good as the run has workers. Whether messages are still
/// under way plays no part in it.
pub proof fn lemma_done_when_every_worker_stopped(
    total: nat,
    workers: nat,
    messages: Seq<DownloaderMessageView>,
)
    requires
        workers <= usize::MAX,
    ensures
        view_after(AggregatorView::initial(total, workers), messages).is_done() <==> terminal_messages(
            messages,
        ) >= workers,
{
    lemma_stopped_counts_terminal_messages(AggregatorView::initial(total, workers), messages);
}

/// The messages of a stream that one worker sent, in the order of the
/// stream.
pub open spec fn sent_by(messages: Seq<DownloaderMessageView>, downloader_id: Seq<char>) -> Seq<
    DownloaderMessageView,
> {
    messages.filter(|message: DownloaderMessageView| message.downloader_id() == downloader_id)
}

/// What one worker sent among the first messages of a stream is the
/// beginning of what it sent in the whole stream.
proof fn lemma_sent_by_prefix(messages: Seq<DownloaderMessageView>, downloader_id: Seq<char>, n: int)
    requires
        0 <= n <= messages.len(),
    ensures
        sent_by(messages.take(n), downloader_id).is_prefix_of(sent_by(messages, downloader_id)),
    decreases messages.len(),
{
    reveal(Seq::filter);
    if n == messages.len() {
        assert(messages.take(n) =~= messages);
    } else {
        let front = messages.drop_last();
        lemma_sent_by_prefix(front, downloader_id, n);
        assert(front.take(n) =~= messages.take(n));
    }
}

/// Where in the stream a message of one worker stands.
proof fn lemma_sent_by_source(
    messages: Seq<DownloaderMessageView>,
    downloader_id: Seq<char>,
    rank: int,
) -> (j: int)
    requires
        0 <= rank < sent_by(messages, downloader_id).len(),
    ensures
        0 <= j < messages.len(),
        messages[j] == sent_by(messages, downloader_id)[rank],
        sent_by(messages.take(j), downloader_id).len() == rank,
    decreases messages.len(),
{
    reveal(Seq::filter);
    let front = messages.drop_last();
    if rank < sent_by(front, downloader_id).len() {
        let j = lemma_sent_by_source(front, downloader_id, rank);
        assert(front.take(j) =~= messages.take(j));
        j
    } else {
        assert(messages.take(messages.len() - 1) =~= front);
        messages.len() - 1
    }
}

/// In a stream that hands on the messages of each worker in the order in
/// which the worker sent them, every result is seen after the message that
/// says that its worker downloads that job: the state of a job is observed
/// strictly before its result, however the messages of the workers are
/// mixed.
pub proof fn lemma_state_observed_before_result(
    messages: Seq<DownloaderMessageView>,
    worker: DownloaderView,
    events: Seq<WorkerEventView>,
    i: int,
) -> (j: int)
    requires
        worker.phase is Created,
        sent_by(messages, worker.id) == run(worker, events).1,
        0 <= i < messages.len(),
        messages[i] is Result,
        messages[i].downloader_id() == worker.id,
    ensures
        0 <= j < i,
        messages[j] == downloading(worker.id, messages[i]->Result_0.youtube_id()),
{
    reveal(Seq::filter);
    let sent = sent_by(messages, worker.id);
    let upto = messages.take(i + 1);
    assert(upto.drop_last() =~= messages.take(i));
    assert(upto.last() == messages[i]);
    lemma_sent_by_prefix(messages, worker.id, i + 1);
    let rank = sent_by(messages.take(i), worker.id).len() as int;
    assert(sent_by(upto, worker.id)[rank] == messages[i]);
    assert(sent[rank] == messages[i]);
    lemma_downloading_precedes_result(worker, events, rank);
    let j = lemma_sent_by_source(messages, worker.id, rank - 1);
    if j >= i {
        lemma_sent_by_prefix(messages.take(j), worker.id, i + 1);
        assert(messages.take(j).take(i + 1) =~= upto);
    }
    j
}

} // verus!
