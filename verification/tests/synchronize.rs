use std::collections::VecDeque;

use yt_mirror::aggregator::Aggregator;
use yt_mirror::downloader::{
    DownloadResult, Downloader, DownloaderMessage, DownloaderState, WorkerAction, WorkerEvent,
};
use yt_mirror::process_repository::ProcessRepository;
use yt_mirror::synchronize::{
    default_downloader_ids, names_are_distinct, plan_run, select_processes, PlanError, RunPlan,
    DOWNLOADER_COUNT, RECENT_RESULTS,
};
use yt_mirror::types::{Process, ProcessState};

fn pending(id: &str) -> Process {
    Process { youtube_id: id.to_string(), state: ProcessState::Pending, error: None }
}

fn table(ids: &[&str]) -> ProcessRepository {
    let mut table = ProcessRepository::new();
    table.save_many(&ids.iter().map(|id| pending(id)).collect());
    table
}

fn names(ids: &[&str]) -> Vec<String> {
    ids.iter().map(|id| id.to_string()).collect()
}

fn finished(worker: &str, job: &str) -> DownloaderMessage {
    DownloaderMessage::Result(DownloadResult::DownloadFinished {
        downloader_id: worker.to_string(),
        youtube_id: job.to_string(),
    })
}

fn downloading(worker: &str, job: &str) -> DownloaderMessage {
    DownloaderMessage::State(DownloaderState::Downloading {
        downloader_id: worker.to_string(),
        youtube_id: job.to_string(),
    })
}

fn count_downloading(aggregator: &Aggregator) -> usize {
    aggregator
        .downloader_states()
        .iter()
        .filter(|s| matches!(s, DownloaderState::Downloading { .. }))
        .count()
}

/// Runs a plan to its end with workers that take turns; `downloader` says
/// how the download of a job ends. Returns every message in the order in
/// which the aggregator took it in.
fn run_plan(
    plan: &RunPlan,
    repository: &mut ProcessRepository,
    aggregator: &mut Aggregator,
    downloader: fn(&str) -> WorkerEvent,
) -> Vec<DownloaderMessage> {
    let mut queue: VecDeque<String> = plan.youtube_ids.iter().cloned().collect();
    let mut workers: Vec<(Downloader, WorkerAction)> = vec![];
    let mut seen = vec![];
    for id in &plan.downloader_ids {
        let mut worker = Downloader::new(id.clone(), "/music".to_string(), "/tmp".to_string(), None);
        let step = worker.start();
        let message = step.message.unwrap();
        seen.push(message.clone());
        aggregator.handle_message(repository, message);
        workers.push((worker, step.action));
    }
    let mut turns = 0;
    while !aggregator.is_done() {
        turns += 1;
        assert!(turns < 10_000, "the run does not end");
        for (worker, action) in workers.iter_mut() {
            let event = match action {
                WorkerAction::Receive => match queue.pop_front() {
                    Some(youtube_id) => WorkerEvent::Job { youtube_id },
                    None => WorkerEvent::QueueClosed,
                },
                WorkerAction::Run { args } => downloader(args.last().unwrap()),
                WorkerAction::Stop => continue,
            };
            let step = worker.step(event);
            *action = step.action;
            if let Some(message) = step.message {
                seen.push(message.clone());
                aggregator.handle_message(repository, message);
                assert!(count_downloading(aggregator) <= plan.downloader_ids.len());
            }
        }
    }
    seen
}

fn succeeds(_job: &str) -> WorkerEvent {
    WorkerEvent::Exited { success: true, stdout: b"done".to_vec(), stderr: vec![] }
}

fn fails_x(job: &str) -> WorkerEvent {
    if job == "x" {
        WorkerEvent::Exited { success: false, stdout: vec![], stderr: b"network error".to_vec() }
    } else {
        succeeds(job)
    }
}

fn skips(_job: &str) -> WorkerEvent {
    WorkerEvent::Exited { success: true, stdout: b"skipping .. have it".to_vec(), stderr: vec![] }
}

fn cannot_run(_job: &str) -> WorkerEvent {
    WorkerEvent::LaunchFailed
}

#[test]
fn with_nothing_pending_there_is_nothing_to_do() {
    let mut repository = table(&["a", "b"]);
    repository.finish("a");
    repository.fail("b", "e");
    let before_failed = repository.get_by_state(ProcessState::Failed);
    let plan = plan_run(&repository, false, default_downloader_ids());
    assert_eq!(plan, Ok(None));
    assert_eq!(repository.len(), 2);
    assert_eq!(repository.get_by_state(ProcessState::Failed), before_failed);
    assert_eq!(repository.get_by_state(ProcessState::Finished).len(), 1);
    let empty = ProcessRepository::new();
    assert_eq!(plan_run(&empty, false, default_downloader_ids()), Ok(None));
    assert_eq!(plan_run(&empty, true, default_downloader_ids()), Ok(None));
}

#[test]
fn with_nothing_to_do_the_names_of_the_workers_do_not_matter() {
    let repository = ProcessRepository::new();
    assert_eq!(plan_run(&repository, false, names(&["a", "a"])), Ok(None));
}

#[test]
fn a_plan_queues_the_pending_jobs() {
    let mut repository = table(&["a", "b", "c"]);
    repository.finish("b");
    let plan = plan_run(&repository, false, names(&["w1", "w2"])).unwrap().unwrap();
    assert_eq!(plan.youtube_ids, vec!["a", "c"]);
    assert_eq!(plan.downloader_ids, vec!["w1", "w2"]);
    assert_eq!(plan.total, 2);
}

#[test]
fn a_retry_queues_the_failed_jobs_before_the_pending_ones() {
    let mut repository = table(&["a", "b", "c", "d", "e"]);
    repository.fail("b", "e1");
    repository.fail("d", "e2");
    repository.finish("c");
    let rows = select_processes(&repository, true);
    let ids: Vec<&str> = rows.iter().map(|p| p.youtube_id.as_str()).collect();
    assert_eq!(ids, vec!["b", "d", "a", "e"]);
    let plan = plan_run(&repository, true, names(&["w"])).unwrap().unwrap();
    assert_eq!(plan.youtube_ids, vec!["b", "d", "a", "e"]);
    assert_eq!(plan.total, 4);
    let without = select_processes(&repository, false);
    let ids: Vec<&str> = without.iter().map(|p| p.youtube_id.as_str()).collect();
    assert_eq!(ids, vec!["a", "e"]);
}

#[test]
fn a_retry_with_only_failed_jobs_tries_exactly_those() {
    let mut repository = table(&["a", "b", "c"]);
    repository.fail("a", "e");
    repository.finish("b");
    repository.fail("c", "e");
    let plan = plan_run(&repository, true, names(&["w1", "w2"])).unwrap().unwrap();
    assert_eq!(plan.youtube_ids, vec!["a", "c"]);
    let mut aggregator = Aggregator::new(plan.total, plan.downloader_ids.len());
    run_plan(&plan, &mut repository, &mut aggregator, succeeds);
    assert_eq!(repository.get_by_state(ProcessState::Finished).len(), 3);
    assert!(repository.get_by_state(ProcessState::Failed).is_empty());
    assert!(repository.get_by_state(ProcessState::Pending).is_empty());
    assert_eq!(plan_run(&repository, false, names(&["w"])), Ok(None));
}

#[test]
fn workers_with_the_same_name_are_refused() {
    let repository = table(&["a"]);
    assert_eq!(
        plan_run(&repository, false, names(&["w", "v", "w"])),
        Err(PlanError::DuplicateDownloaderId)
    );
}

#[test]
fn names_are_compared_in_full() {
    assert!(names_are_distinct(&names(&[])));
    assert!(names_are_distinct(&names(&["a"])));
    assert!(names_are_distinct(&names(&["a", "ab", "b"])));
    assert!(!names_are_distinct(&names(&["a", "b", "a"])));
    assert!(!names_are_distinct(&names(&["a", "a"])));
}

#[test]
fn the_default_workers_are_ten_with_different_names() {
    let ids = default_downloader_ids();
    assert_eq!(DOWNLOADER_COUNT, 10);
    assert_eq!(ids.len(), DOWNLOADER_COUNT);
    assert!(names_are_distinct(&ids));
    assert_eq!(ids[0], "Alder");
    assert_eq!(ids[9], "Larch");
}

#[test]
fn two_workers_finish_three_jobs() {
    let mut repository = table(&["a", "b", "c"]);
    let plan = plan_run(&repository, false, names(&["w1", "w2"])).unwrap().unwrap();
    let mut aggregator = Aggregator::new(plan.total, plan.downloader_ids.len());
    assert!(!aggregator.is_done());
    let seen = run_plan(&plan, &mut repository, &mut aggregator, succeeds);
    assert!(aggregator.is_done());
    assert_eq!(aggregator.progress(), (3, 3));
    for id in ["a", "b", "c"] {
        assert_eq!(
            repository.get(id),
            Some(Process { youtube_id: id.to_string(), state: ProcessState::Finished, error: None })
        );
    }
    assert_eq!(repository.len(), 3);
    let results = seen.iter().filter(|m| matches!(m, DownloaderMessage::Result(_))).count();
    assert_eq!(results, 3);
    assert_eq!(
        aggregator.downloader_states(),
        &vec![
            DownloaderState::Finished { downloader_id: "w1".to_string() },
            DownloaderState::Finished { downloader_id: "w2".to_string() },
        ]
    );
}

#[test]
fn every_result_is_seen_after_its_downloading_state() {
    let mut repository = table(&["a", "b", "c", "d", "e"]);
    let plan = plan_run(&repository, false, names(&["w1", "w2", "w3"])).unwrap().unwrap();
    let mut aggregator = Aggregator::new(plan.total, plan.downloader_ids.len());
    let seen = run_plan(&plan, &mut repository, &mut aggregator, fails_x);
    let mut results = 0;
    for (i, message) in seen.iter().enumerate() {
        if let DownloaderMessage::Result(DownloadResult::DownloadFinished {
            downloader_id,
            youtube_id,
        }) = message
        {
            results += 1;
            let announced = downloading(downloader_id, youtube_id);
            assert!(seen[..i].contains(&announced));
        }
    }
    assert_eq!(results, 5);
}

#[test]
fn a_failed_job_is_stored_with_its_error() {
    let mut repository = table(&["x"]);
    let plan = plan_run(&repository, false, names(&["w1", "w2"])).unwrap().unwrap();
    let mut aggregator = Aggregator::new(plan.total, plan.downloader_ids.len());
    run_plan(&plan, &mut repository, &mut aggregator, fails_x);
    assert_eq!(
        repository.get("x"),
        Some(Process {
            youtube_id: "x".to_string(),
            state: ProcessState::Failed,
            error: Some("network error".to_string()),
        })
    );
    assert_eq!(aggregator.progress(), (1, 1));
    assert!(aggregator.is_done());
}

#[test]
fn a_skipped_job_is_stored_as_skipped() {
    let mut repository = table(&["x"]);
    let plan = plan_run(&repository, false, names(&["w"])).unwrap().unwrap();
    let mut aggregator = Aggregator::new(plan.total, plan.downloader_ids.len());
    run_plan(&plan, &mut repository, &mut aggregator, skips);
    assert_eq!(
        repository.get("x"),
        Some(Process { youtube_id: "x".to_string(), state: ProcessState::Skipped, error: None })
    );
    assert!(repository.get_by_state(ProcessState::Finished).is_empty());
}

#[test]
fn a_run_ends_when_every_worker_crashed() {
    let mut repository = table(&["a", "b", "c"]);
    let plan = plan_run(&repository, false, names(&["w1", "w2"])).unwrap().unwrap();
    let mut aggregator = Aggregator::new(plan.total, plan.downloader_ids.len());
    run_plan(&plan, &mut repository, &mut aggregator, cannot_run);
    assert!(aggregator.is_done());
    assert_eq!(aggregator.progress(), (0, 3));
    assert_eq!(repository.get_by_state(ProcessState::Pending).len(), 3);
    assert_eq!(
        aggregator.downloader_states(),
        &vec![
            DownloaderState::Crashed { downloader_id: "w1".to_string() },
            DownloaderState::Crashed { downloader_id: "w2".to_string() },
        ]
    );
}

#[test]
fn a_result_is_counted_logged_and_written() {
    let mut repository = table(&["a", "b"]);
    let mut aggregator = Aggregator::new(2, 1);
    let written = aggregator.handle_message(&mut repository, finished("w", "a"));
    assert_eq!(
        written,
        Some(Process { youtube_id: "a".to_string(), state: ProcessState::Finished, error: None })
    );
    assert_eq!(aggregator.progress(), (1, 2));
    let failed = DownloaderMessage::Result(DownloadResult::DownloadFailed {
        downloader_id: "w".to_string(),
        youtube_id: "b".to_string(),
        error_message: "boom".to_string(),
    });
    let written = aggregator.handle_message(&mut repository, failed);
    assert_eq!(
        written,
        Some(Process {
            youtube_id: "b".to_string(),
            state: ProcessState::Failed,
            error: Some("boom".to_string()),
        })
    );
    assert_eq!(repository.get("b"), written);
    assert_eq!(aggregator.progress(), (2, 2));
    assert_eq!(
        aggregator.results(),
        &vec![
            DownloadResult::DownloadFailed {
                downloader_id: "w".to_string(),
                youtube_id: "b".to_string(),
                error_message: "boom".to_string(),
            },
            DownloadResult::DownloadFinished {
                downloader_id: "w".to_string(),
                youtube_id: "a".to_string(),
            },
        ]
    );
    let skipped = DownloaderMessage::Result(DownloadResult::DownloadSkipped {
        downloader_id: "w".to_string(),
        youtube_id: "a".to_string(),
    });
    let written = aggregator.handle_message(&mut repository, skipped);
    assert_eq!(
        written,
        Some(Process { youtube_id: "a".to_string(), state: ProcessState::Skipped, error: None })
    );
    assert_eq!(repository.get("a").unwrap().state, ProcessState::Skipped);
}

#[test]
fn a_state_overwrites_the_entry_of_its_worker() {
    let mut repository = table(&["a"]);
    let mut aggregator = Aggregator::new(1, 2);
    let waiting =
        |w: &str| DownloaderMessage::State(DownloaderState::Waiting { downloader_id: w.to_string() });
    assert_eq!(aggregator.handle_message(&mut repository, waiting("w1")), None);
    aggregator.handle_message(&mut repository, waiting("w2"));
    aggregator.handle_message(&mut repository, downloading("w1", "a"));
    assert_eq!(
        aggregator.downloader_states(),
        &vec![
            DownloaderState::Downloading {
                downloader_id: "w1".to_string(),
                youtube_id: "a".to_string()
            },
            DownloaderState::Waiting { downloader_id: "w2".to_string() },
        ]
    );
    assert_eq!(aggregator.progress(), (0, 1));
    assert_eq!(repository.get("a"), Some(pending("a")));
    assert!(aggregator.results().is_empty());
}

#[test]
fn the_log_keeps_the_latest_results() {
    let mut repository = ProcessRepository::new();
    let mut aggregator = Aggregator::new(45, 1);
    assert_eq!(RECENT_RESULTS, 40);
    for i in 0..45 {
        aggregator.handle_message(&mut repository, finished("w", &format!("job{}", i)));
        assert_eq!(aggregator.results().len(), std::cmp::min(i + 1, 40));
    }
    assert_eq!(aggregator.progress(), (45, 45));
    let results = aggregator.results();
    assert_eq!(results.len(), 40);
    assert_eq!(
        results[0],
        DownloadResult::DownloadFinished {
            downloader_id: "w".to_string(),
            youtube_id: "job44".to_string()
        }
    );
    assert_eq!(
        results[39],
        DownloadResult::DownloadFinished {
            downloader_id: "w".to_string(),
            youtube_id: "job5".to_string()
        }
    );
}

#[test]
fn a_run_is_done_when_every_worker_has_stopped() {
    let mut repository = ProcessRepository::new();
    let mut aggregator = Aggregator::new(0, 2);
    let stopped = |w: &str| {
        DownloaderMessage::State(DownloaderState::Finished { downloader_id: w.to_string() })
    };
    assert!(!aggregator.is_done());
    aggregator.handle_message(&mut repository, stopped("w1"));
    assert!(!aggregator.is_done());
    assert!(!aggregator.should_stop(false));
    assert!(aggregator.should_stop(true));
    let crashed =
        DownloaderMessage::State(DownloaderState::Crashed { downloader_id: "w2".to_string() });
    aggregator.handle_message(&mut repository, crashed);
    assert!(aggregator.is_done());
    assert!(aggregator.should_stop(false));
    assert!(aggregator.should_stop(true));
    let none = Aggregator::new(0, 0);
    assert!(none.is_done());
}

#[test]
fn never_more_downloads_than_workers() {
    let mut repository = table(&["a", "b", "c", "d", "e", "f", "g"]);
    let plan = plan_run(&repository, false, names(&["w1", "w2", "w3"])).unwrap().unwrap();
    let mut aggregator = Aggregator::new(plan.total, plan.downloader_ids.len());
    run_plan(&plan, &mut repository, &mut aggregator, succeeds);
    assert_eq!(aggregator.downloader_states().len(), 3);
    assert_eq!(aggregator.progress(), (7, 7));
    assert_eq!(repository.get_by_state(ProcessState::Finished).len(), 7);
}
