//! What a download worker reports, and how it decides what to report.
//!
//! A worker takes one job at a time from a shared queue, runs the external
//! downloader on it and reports what came of it. Waiting on the queue and
//! running the downloader are left to the caller: the worker here is told what
//! happened and answers with the messages to send and with what to do next.

use vstd::prelude::*;
use vstd::utf8::{decode_utf8, valid_utf8};

use crate::types::text_of;

verus! {

/// What came of one attempt to download a job.
#[derive(Debug, PartialEq, Eq)]
pub enum DownloadResult {
    DownloadSkipped { downloader_id: String, youtube_id: String },
    DownloadFailed { downloader_id: String, youtube_id: String, error_message: String },
    DownloadFinished { downloader_id: String, youtube_id: String },
}

/// What a worker is doing.
#[derive(Debug, PartialEq, Eq)]
pub enum DownloaderState {
    Downloading { downloader_id: String, youtube_id: String },
    Finished { downloader_id: String },
    Waiting { downloader_id: String },
    Crashed { downloader_id: String },
}

/// What a worker sends: a change of its state, or the result of an attempt.
#[derive(Debug, PartialEq, Eq)]
pub enum DownloaderMessage {
    Result(DownloadResult),
    State(DownloaderState),
}

/// A result as plain data.
pub enum DownloadResultView {
    DownloadSkipped { downloader_id: Seq<char>, youtube_id: Seq<char> },
    DownloadFailed { downloader_id: Seq<char>, youtube_id: Seq<char>, error_message: Seq<char> },
    DownloadFinished { downloader_id: Seq<char>, youtube_id: Seq<char> },
}

/// A worker's state as plain data.
pub enum DownloaderStateView {
    Downloading { downloader_id: Seq<char>, youtube_id: Seq<char> },
    Finished { downloader_id: Seq<char> },
    Waiting { downloader_id: Seq<char> },
    Crashed { downloader_id: Seq<char> },
}

/// A message as plain data.
pub enum DownloaderMessageView {
    Result(DownloadResultView),
    State(DownloaderStateView),
}

impl DownloadResultView {
    /// The worker that made the attempt.
    pub open spec fn downloader_id(self) -> Seq<char> {
        match self {
            DownloadResultView::DownloadSkipped { downloader_id, .. } => downloader_id,
            DownloadResultView::DownloadFailed { downloader_id, .. } => downloader_id,
            DownloadResultView::DownloadFinished { downloader_id, .. } => downloader_id,
        }
    }

    /// The job that was attempted.
    pub open spec fn youtube_id(self) -> Seq<char> {
        match self {
            DownloadResultView::DownloadSkipped { youtube_id, .. } => youtube_id,
            DownloadResultView::DownloadFailed { youtube_id, .. } => youtube_id,
            DownloadResultView::DownloadFinished { youtube_id, .. } => youtube_id,
        }
    }
}

impl DownloaderStateView {
    /// The worker whose state this is.
    pub open spec fn downloader_id(self) -> Seq<char> {
        match self {
            DownloaderStateView::Downloading { downloader_id, .. } => downloader_id,
            DownloaderStateView::Finished { downloader_id } => downloader_id,
            DownloaderStateView::Waiting { downloader_id } => downloader_id,
            DownloaderStateView::Crashed { downloader_id } => downloader_id,
        }
    }

    /// Whether the worker has stopped for good.
    pub open spec fn is_terminal(self) -> bool {
        self is Finished || self is Crashed
    }
}

impl DownloaderMessageView {
    /// The worker that sent the message.
    pub open spec fn downloader_id(self) -> Seq<char> {
        match self {
            DownloaderMessageView::Result(result) => result.downloader_id(),
            DownloaderMessageView::State(state) => state.downloader_id(),
        }
    }
}

impl View for DownloadResult {
    type V = DownloadResultView;

    open spec fn view(&self) -> DownloadResultView {
        match *self {
            DownloadResult::DownloadSkipped { downloader_id, youtube_id } => {
                DownloadResultView::DownloadSkipped {
                    downloader_id: downloader_id@,
                    youtube_id: youtube_id@,
                }
            },
            DownloadResult::DownloadFailed { downloader_id, youtube_id, error_message } => {
                DownloadResultView::DownloadFailed {
                    downloader_id: downloader_id@,
                    youtube_id: youtube_id@,
                    error_message: error_message@,
                }
            },
            DownloadResult::DownloadFinished { downloader_id, youtube_id } => {
                DownloadResultView::DownloadFinished {
                    downloader_id: downloader_id@,
                    youtube_id: youtube_id@,
                }
            },
        }
    }
}

impl View for DownloaderState {
    type V = DownloaderStateView;

    open spec fn view(&self) -> DownloaderStateView {
        match *self {
            DownloaderState::Downloading { downloader_id, youtube_id } => {
                DownloaderStateView::Downloading {
                    downloader_id: downloader_id@,
                    youtube_id: youtube_id@,
                }
            },
            DownloaderState::Finished { downloader_id } => {
                DownloaderStateView::Finished { downloader_id: downloader_id@ }
            },
            DownloaderState::Waiting { downloader_id } => {
                DownloaderStateView::Waiting { downloader_id: downloader_id@ }
            },
            DownloaderState::Crashed { downloader_id } => {
                DownloaderStateView::Crashed { downloader_id: downloader_id@ }
            },
        }
    }
}

impl View for DownloaderMessage {
    type V = DownloaderMessageView;

    open spec fn view(&self) -> DownloaderMessageView {
        match *self {
            DownloaderMessage::Result(result) => DownloaderMessageView::Result(result@),
            DownloaderMessage::State(state) => DownloaderMessageView::State(state@),
        }
    }
}

impl Clone for DownloadResult {
    fn clone(&self) -> (copy: DownloadResult)
        ensures
            copy@ == self@,
    {
        match self {
            DownloadResult::DownloadSkipped { downloader_id, youtube_id } => {
                DownloadResult::DownloadSkipped {
                    downloader_id: downloader_id.clone(),
                    youtube_id: youtube_id.clone(),
                }
            },
            DownloadResult::DownloadFailed { downloader_id, youtube_id, error_message } => {
                DownloadResult::DownloadFailed {
                    downloader_id: downloader_id.clone(),
                    youtube_id: youtube_id.clone(),
                    error_message: error_message.clone(),
                }
            },
            DownloadResult::DownloadFinished { downloader_id, youtube_id } => {
                DownloadResult::DownloadFinished {
                    downloader_id: downloader_id.clone(),
                    youtube_id: youtube_id.clone(),
                }
            },
        }
    }
}

impl Clone for DownloaderState {
    fn clone(&self) -> (copy: DownloaderState)
        ensures
            copy@ == self@,
    {
        match self {
            DownloaderState::Downloading { downloader_id, youtube_id } => {
                DownloaderState::Downloading {
                    downloader_id: downloader_id.clone(),
                    youtube_id: youtube_id.clone(),
                }
            },
            DownloaderState::Finished { downloader_id } => {
                DownloaderState::Finished { downloader_id: downloader_id.clone() }
            },
            DownloaderState::Waiting { downloader_id } => {
                DownloaderState::Waiting { downloader_id: downloader_id.clone() }
            },
            DownloaderState::Crashed { downloader_id } => {
                DownloaderState::Crashed { downloader_id: downloader_id.clone() }
            },
        }
    }
}

impl Clone for DownloaderMessage {
    fn clone(&self) -> (copy: DownloaderMessage)
        ensures
            copy@ == self@,
    {
        match self {
            DownloaderMessage::Result(result) => DownloaderMessage::Result(result.clone()),
            DownloaderMessage::State(state) => DownloaderMessage::State(state.clone()),
        }
    }
}

impl DownloaderState {
    /// The worker whose state this is.
    pub fn downloader_id(&self) -> (id: &String)
        ensures
            id@ == self@.downloader_id(),
    {
        match self {
            DownloaderState::Downloading { downloader_id, .. } => downloader_id,
            DownloaderState::Finished { downloader_id } => downloader_id,
            DownloaderState::Waiting { downloader_id } => downloader_id,
            DownloaderState::Crashed { downloader_id } => downloader_id,
        }
    }

    /// Whether the worker has stopped for good.
    pub fn is_terminal(&self) -> (terminal: bool)
        ensures
            terminal == self@.is_terminal(),
    {
        match self {
            DownloaderState::Finished { .. } => true,
            DownloaderState::Crashed { .. } => true,
            _ => false,
        }
    }
}

/// The words with which the downloader's output begins when it passed a job
/// over because the file was there already.
pub open spec fn skip_marker() -> Seq<char> {
    "skipping .."@
}

/// Whether `text` begins with `prefix`.
pub fn starts_with(text: &str, prefix: &str) -> (found: bool)
    ensures
        found == prefix@.is_prefix_of(text@),
{
    let n = prefix.unicode_len();
    if text.unicode_len() < n {
        return false;
    }
    let mut i: usize = 0;
    while i < n
        invariant
            i <= n,
            n == prefix@.len(),
            n <= text@.len(),
            forall|k: int| 0 <= k < i ==> text@[k] == prefix@[k],
        decreases n - i,
    {
        if text.get_char(i) != prefix.get_char(i) {
            assert(text@.subrange(0, n as int)[i as int] != prefix@[i as int]);
            return false;
        }
        i += 1;
    }
    assert(prefix@ =~= text@.subrange(0, n as int));
    true
}

/// What an attempt came to, from how the downloader ended and what it wrote:
/// it failed if it ended unsuccessfully, and what it wrote to its error
/// stream says why; it skipped the job if it ended successfully and its
/// output begins with the skip marker; otherwise it finished the job.
pub open spec fn classify(
    downloader_id: Seq<char>,
    youtube_id: Seq<char>,
    success: bool,
    stdout: Seq<char>,
    stderr: Seq<char>,
) -> DownloadResultView {
    if !success {
        DownloadResultView::DownloadFailed { downloader_id, youtube_id, error_message: stderr }
    } else if skip_marker().is_prefix_of(stdout) {
        DownloadResultView::DownloadSkipped { downloader_id, youtube_id }
    } else {
        DownloadResultView::DownloadFinished { downloader_id, youtube_id }
    }
}

/// Tells what an attempt came to.
pub fn classify_output(
    downloader_id: &str,
    youtube_id: String,
    success: bool,
    stdout: &str,
    stderr: String,
) -> (result: DownloadResult)
    ensures
        result@ == classify(downloader_id@, youtube_id@, success, stdout@, stderr@),
{
    if !success {
        DownloadResult::DownloadFailed {
            downloader_id: downloader_id.to_owned(),
            youtube_id,
            error_message: stderr,
        }
    } else if starts_with(stdout, "skipping ..") {
        DownloadResult::DownloadSkipped { downloader_id: downloader_id.to_owned(), youtube_id }
    } else {
        DownloadResult::DownloadFinished { downloader_id: downloader_id.to_owned(), youtube_id }
    }
}

/// The characters of each string of a sequence.
pub open spec fn texts(items: Seq<String>) -> Seq<Seq<char>> {
    items.map_values(|item: String| item@)
}

/// The arguments with which the downloader is run on a job: extract the
/// audio, write it under the temporary directory, move the finished file to
/// the target directory, and keep to the filter expression if there is one.
pub open spec fn download_args(
    youtube_id: Seq<char>,
    target_dir: Seq<char>,
    tmp_dir: Seq<char>,
    filter: Option<Seq<char>>,
) -> Seq<Seq<char>> {
    seq![
        "-x"@,
        "-o"@,
        tmp_dir + "/%(title)s.%(ext)s"@,
        "--no-warnings"@,
        "--exec"@,
        "mv {} "@ + target_dir + "/"@,
    ] + (match filter {
        Some(expression) => seq!["--match-filter"@, expression],
        None => Seq::empty(),
    }) + seq!["--"@, youtube_id]
}

/// Builds the downloader's arguments for a job.
pub fn build_download_args(
    youtube_id: &str,
    target_dir: &str,
    tmp_dir: &str,
    filter: &Option<String>,
) -> (args: Vec<String>)
    ensures
        texts(args@) == download_args(youtube_id@, target_dir@, tmp_dir@, text_of(*filter)),
{
    let mut args: Vec<String> = Vec::new();
    args.push("-x".to_owned());
    args.push("-o".to_owned());
    args.push(tmp_dir.to_owned().concat("/%(title)s.%(ext)s"));
    args.push("--no-warnings".to_owned());
    args.push("--exec".to_owned());
    args.push("mv {} ".to_owned().concat(target_dir).concat("/"));
    match filter {
        Some(expression) => {
            args.push("--match-filter".to_owned());
            args.push(expression.clone());
        },
        None => {},
    }
    args.push("--".to_owned());
    args.push(youtube_id.to_owned());
    assert(texts(args@) =~= download_args(youtube_id@, target_dir@, tmp_dir@, text_of(*filter)));
    args
}

/// `String::from_utf8` of std: the text that the bytes encode, or `None`
/// where they are not valid UTF-8.
#[verifier::external_body]
fn text_from_utf8(bytes: Vec<u8>) -> (text: Option<String>)
    ensures
        match text {
            Some(decoded) => valid_utf8(bytes@) && decoded@ == decode_utf8(bytes@),
            None => !valid_utf8(bytes@),
        },
{
    match String::from_utf8(bytes) {
        Ok(decoded) => Some(decoded),
        Err(_) => None,
    }
}

/// Where a worker stands.
#[derive(Debug, PartialEq, Eq)]
pub enum WorkerPhase {
    /// Made, not started yet.
    Created,
    /// Started, with no job in hand.
    Idle,
    /// The downloader is running on a job.
    Busy { youtube_id: String },
    /// The queue ran dry: stopped for good.
    Finished,
    /// The downloader could not be run or understood: stopped for good.
    Crashed,
}

/// What a worker is told.
#[derive(Debug)]
pub enum WorkerEvent {
    /// The worker's thread began.
    Started,
    /// The queue handed out a job.
    Job { youtube_id: String },
    /// The queue is closed and empty.
    QueueClosed,
    /// The downloader ran and ended.
    Exited { success: bool, stdout: Vec<u8>, stderr: Vec<u8> },
    /// The downloader could not be run, or its output could not be read.
    LaunchFailed,
}

/// What a worker does next.
#[derive(Debug, PartialEq, Eq)]
pub enum WorkerAction {
    /// Wait for the queue to hand out a job.
    Receive,
    /// Run the downloader with these arguments.
    Run { args: Vec<String> },
    /// Stop: no further event is awaited.
    Stop,
}

/// A worker's answer to an event.
#[derive(Debug, PartialEq, Eq)]
pub struct WorkerStep {
    /// The message to send, if any.
    pub message: Option<DownloaderMessage>,
    /// What to do after sending it.
    pub action: WorkerAction,
}

/// A worker: its name, the directories it downloads to, the filter it keeps
/// to, and where it stands.
#[derive(Debug)]
pub struct Downloader {
    pub id: String,
    target: String,
    tmp: String,
    filter: Option<String>,
    phase: WorkerPhase,
}

/// A phase as plain data.
pub enum WorkerPhaseView {
    Created,
    Idle,
    Busy { youtube_id: Seq<char> },
    Finished,
    Crashed,
}

/// An event as plain data.
pub enum WorkerEventView {
    Started,
    Job { youtube_id: Seq<char> },
    QueueClosed,
    Exited { success: bool, stdout: Seq<u8>, stderr: Seq<u8> },
    LaunchFailed,
}

/// An action as plain data.
pub enum WorkerActionView {
    Receive,
    Run { args: Seq<Seq<char>> },
    Stop,
}

/// A worker's answer as plain data.
pub struct WorkerStepView {
    pub message: Option<DownloaderMessageView>,
    pub action: WorkerActionView,
}

/// A worker as plain data.
pub struct DownloaderView {
    pub id: Seq<char>,
    pub target: Seq<char>,
    pub tmp: Seq<char>,
    pub filter: Option<Seq<char>>,
    pub phase: WorkerPhaseView,
}

impl WorkerPhaseView {
    /// Whether the worker has stopped for good.
    pub open spec fn is_terminal(self) -> bool {
        self is Finished || self is Crashed
    }
}

impl View for WorkerPhase {
    type V = WorkerPhaseView;

    open spec fn view(&self) -> WorkerPhaseView {
        match *self {
            WorkerPhase::Created => WorkerPhaseView::Created,
            WorkerPhase::Idle => WorkerPhaseView::Idle,
            WorkerPhase::Busy { youtube_id } => WorkerPhaseView::Busy { youtube_id: youtube_id@ },
            WorkerPhase::Finished => WorkerPhaseView::Finished,
            WorkerPhase::Crashed => WorkerPhaseView::Crashed,
        }
    }
}

impl View for WorkerEvent {
    type V = WorkerEventView;

    open spec fn view(&self) -> WorkerEventView {
        match *self {
            WorkerEvent::Started => WorkerEventView::Started,
            WorkerEvent::Job { youtube_id } => WorkerEventView::Job { youtube_id: youtube_id@ },
            WorkerEvent::QueueClosed => WorkerEventView::QueueClosed,
            WorkerEvent::Exited { success, stdout, stderr } => {
                WorkerEventView::Exited { success, stdout: stdout@, stderr: stderr@ }
            },
            WorkerEvent::LaunchFailed => WorkerEventView::LaunchFailed,
        }
    }
}

impl View for WorkerAction {
    type V = WorkerActionView;

    open spec fn view(&self) -> WorkerActionView {
        match *self {
            WorkerAction::Receive => WorkerActionView::Receive,
            WorkerAction::Run { args } => WorkerActionView::Run { args: texts(args@) },
            WorkerAction::Stop => WorkerActionView::Stop,
        }
    }
}

/// An optional message as plain data.
pub open spec fn message_of(message: Option<DownloaderMessage>) -> Option<DownloaderMessageView> {
    match message {
        Some(m) => Some(m@),
        None => None,
    }
}

impl View for WorkerStep {
    type V = WorkerStepView;

    open spec fn view(&self) -> WorkerStepView {
        WorkerStepView { message: message_of(self.message), action: self.action@ }
    }
}

impl View for Downloader {
    type V = DownloaderView;

    closed spec fn view(&self) -> DownloaderView {
        DownloaderView {
            id: self.id@,
            target: self.target@,
            tmp: self.tmp@,
            filter: text_of(self.filter),
            phase: self.phase@,
        }
    }
}

impl DownloaderView {
    /// The same worker in another phase.
    pub open spec fn at(self, phase: WorkerPhaseView) -> DownloaderView {
        DownloaderView { phase, ..self }
    }

    /// The worker stops for good and says that it crashed.
    pub open spec fn crash(self) -> (DownloaderView, WorkerStepView) {
        (
            self.at(WorkerPhaseView::Crashed),
            WorkerStepView {
                message: Some(
                    DownloaderMessageView::State(
                        DownloaderStateView::Crashed { downloader_id: self.id },
                    ),
                ),
                action: WorkerActionView::Stop,
            },
        )
    }

    /// What an attempt on a job came to, from how the downloader ended and
    /// the bytes it wrote; `None` where either stream is not valid UTF-8.
    pub open spec fn attempt(
        self,
        youtube_id: Seq<char>,
        success: bool,
        stdout: Seq<u8>,
        stderr: Seq<u8>,
    ) -> Option<DownloadResultView> {
        if valid_utf8(stdout) && valid_utf8(stderr) {
            Some(classify(self.id, youtube_id, success, decode_utf8(stdout), decode_utf8(stderr)))
        } else {
            None
        }
    }

    /// The worker after an event, and its answer.
    ///
    /// A new worker that is started says that it waits, and waits for a job.
    /// An idle worker that is handed a job says that it downloads it, and
    /// runs the downloader; told that the queue is closed, it says that it
    /// finished, and stops. A busy worker whose downloader ended sends the
    /// result and waits for the next job, unless the output cannot be read.
    /// A worker that stopped answers nothing. Anything else is a crash.
    pub open spec fn step(self, event: WorkerEventView) -> (DownloaderView, WorkerStepView) {
        match (self.phase, event) {
            (WorkerPhaseView::Finished, _) | (WorkerPhaseView::Crashed, _) => (
                self,
                WorkerStepView { message: None, action: WorkerActionView::Stop },
            ),
            (WorkerPhaseView::Created, WorkerEventView::Started) => (
                self.at(WorkerPhaseView::Idle),
                WorkerStepView {
                    message: Some(
                        DownloaderMessageView::State(
                            DownloaderStateView::Waiting { downloader_id: self.id },
                        ),
                    ),
                    action: WorkerActionView::Receive,
                },
            ),
            (WorkerPhaseView::Idle, WorkerEventView::Job { youtube_id }) => (
                self.at(WorkerPhaseView::Busy { youtube_id }),
                WorkerStepView {
                    message: Some(
                        DownloaderMessageView::State(
                            DownloaderStateView::Downloading { downloader_id: self.id, youtube_id },
                        ),
                    ),
                    action: WorkerActionView::Run {
                        args: download_args(youtube_id, self.target, self.tmp, self.filter),
                    },
                },
            ),
            (WorkerPhaseView::Idle, WorkerEventView::QueueClosed) => (
                self.at(WorkerPhaseView::Finished),
                WorkerStepView {
                    message: Some(
                        DownloaderMessageView::State(
                            DownloaderStateView::Finished { downloader_id: self.id },
                        ),
                    ),
                    action: WorkerActionView::Stop,
                },
            ),
            (
                WorkerPhaseView::Busy { youtube_id },
                WorkerEventView::Exited { success, stdout, stderr },
            ) => match self.attempt(youtube_id, success, stdout, stderr) {
                Some(result) => (
                    self.at(WorkerPhaseView::Idle),
                    WorkerStepView {
                        message: Some(DownloaderMessageView::Result(result)),
                        action: WorkerActionView::Receive,
                    },
                ),
                None => self.crash(),
            },
            _ => self.crash(),
        }
    }
}

impl Clone for WorkerPhase {
    fn clone(&self) -> (copy: WorkerPhase)
        ensures
            copy@ == self@,
    {
        match self {
            WorkerPhase::Created => WorkerPhase::Created,
            WorkerPhase::Idle => WorkerPhase::Idle,
            WorkerPhase::Busy { youtube_id } => WorkerPhase::Busy { youtube_id: youtube_id.clone() },
            WorkerPhase::Finished => WorkerPhase::Finished,
            WorkerPhase::Crashed => WorkerPhase::Crashed,
        }
    }
}

impl Downloader {
    /// A worker that has not started yet.
    pub fn new(id: String, target: String, tmp: String, filter: Option<String>) -> (worker:
        Downloader)
        ensures
            worker@ == (DownloaderView {
                id: id@,
                target: target@,
                tmp: tmp@,
                filter: text_of(filter),
                phase: WorkerPhaseView::Created,
            }),
    {
        Downloader { id, target, tmp, filter, phase: WorkerPhase::Created }
    }

    /// The worker's name, which every message of the worker carries.
    pub fn id(&self) -> (id: &String)
        ensures
            id@ == self@.id,
    {
        &self.id
    }

    /// Where the worker stands.
    pub fn phase(&self) -> (phase: WorkerPhase)
        ensures
            phase@ == self@.phase,
    {
        self.phase.clone()
    }

    /// Starts the worker: it says that it waits, and waits for a job.
    pub fn start(&mut self) -> (next: WorkerStep)
        ensures
            final(self)@ == old(self)@.step(WorkerEventView::Started).0,
            next@ == old(self)@.step(WorkerEventView::Started).1,
    {
        self.step(WorkerEvent::Started)
    }

    /// Tells what an attempt on a job came to, from how the downloader ended
    /// and the bytes it wrote. `None` where either stream is not valid UTF-8.
    pub fn download_yt(&self, youtube_id: String, success: bool, stdout: Vec<u8>, stderr: Vec<u8>) -> (result: Option<DownloadResult>)
        ensures
            result_of(result) == self@.attempt(youtube_id@, success, stdout@, stderr@),
    {
        let out = text_from_utf8(stdout);
        let err = text_from_utf8(stderr);
        match (out, err) {
            (Some(out), Some(err)) => Some(
                classify_output(self.id.as_str(), youtube_id, success, out.as_str(), err),
            ),
            _ => None,
        }
    }

    fn crashed(&mut self) -> (next: WorkerStep)
        ensures
            final(self)@ == old(self)@.crash().0,
            next@ == old(self)@.crash().1,
    {
        self.phase = WorkerPhase::Crashed;
        WorkerStep {
            message: Some(
                DownloaderMessage::State(DownloaderState::Crashed { downloader_id: self.id.clone() }),
            ),
            action: WorkerAction::Stop,
        }
    }

    /// Takes an event and answers with the message to send and with what to
    /// do next.
    pub fn step(&mut self, event: WorkerEvent) -> (next: WorkerStep)
        ensures
            final(self)@ == old(self)@.step(event@).0,
            next@ == old(self)@.step(event@).1,
    {
        let phase = self.phase.clone();
        match phase {
            WorkerPhase::Finished => WorkerStep { message: None, action: WorkerAction::Stop },
            WorkerPhase::Crashed => WorkerStep { message: None, action: WorkerAction::Stop },
            WorkerPhase::Created => match event {
                WorkerEvent::Started => {
                    self.phase = WorkerPhase::Idle;
                    WorkerStep {
                        message: Some(
                            DownloaderMessage::State(
                                DownloaderState::Waiting { downloader_id: self.id.clone() },
                            ),
                        ),
                        action: WorkerAction::Receive,
                    }
                },
                _ => self.crashed(),
            },
            WorkerPhase::Idle => match event {
                WorkerEvent::Job { youtube_id } => {
                    let args = build_download_args(
                        youtube_id.as_str(),
                        self.target.as_str(),
                        self.tmp.as_str(),
                        &self.filter,
                    );
                    let message = DownloaderMessage::State(
                        DownloaderState::Downloading {
                            downloader_id: self.id.clone(),
                            youtube_id: youtube_id.clone(),
                        },
                    );
                    self.phase = WorkerPhase::Busy { youtube_id };
                    WorkerStep { message: Some(message), action: WorkerAction::Run { args } }
                },
                WorkerEvent::QueueClosed => {
                    self.phase = WorkerPhase::Finished;
                    WorkerStep {
                        message: Some(
                            DownloaderMessage::State(
                                DownloaderState::Finished { downloader_id: self.id.clone() },
                            ),
                        ),
                        action: WorkerAction::Stop,
                    }
                },
                _ => self.crashed(),
            },
            WorkerPhase::Busy { youtube_id } => match event {
                WorkerEvent::Exited { success, stdout, stderr } => {
                    match self.download_yt(youtube_id, success, stdout, stderr) {
                        Some(result) => {
                            self.phase = WorkerPhase::Idle;
                            WorkerStep {
                                message: Some(DownloaderMessage::Result(result)),
                                action: WorkerAction::Receive,
                            }
                        },
                        None => self.crashed(),
                    }
                },
                _ => self.crashed(),
            },
        }
    }
}

/// An optional result as plain data.
pub open spec fn result_of(result: Option<DownloadResult>) -> Option<DownloadResultView> {
    match result {
        Some(r) => Some(r@),
        None => None,
    }
}

/// The messages that come first, followed by the message of one more step.
pub open spec fn with_message(
    sent: Seq<DownloaderMessageView>,
    message: Option<DownloaderMessageView>,
) -> Seq<DownloaderMessageView> {
    match message {
        Some(m) => sent.push(m),
        None => sent,
    }
}

/// A worker after a run of events, and the messages it sent on the way, in
/// the order in which it sent them.
pub open spec fn run(worker: DownloaderView, events: Seq<WorkerEventView>) -> (
    DownloaderView,
    Seq<DownloaderMessageView>,
)
    decreases events.len(),
{
    if events.len() == 0 {
        (worker, Seq::empty())
    } else {
        let before = run(worker, events.drop_last());
        let last = before.0.step(events.last());
        (last.0, with_message(before.1, last.1.message))
    }
}

/// The message that says that a worker downloads a job.
pub open spec fn downloading(downloader_id: Seq<char>, youtube_id: Seq<char>) -> DownloaderMessageView {
    DownloaderMessageView::State(DownloaderStateView::Downloading { downloader_id, youtube_id })
}

/// Whether a message says that its worker has stopped for good.
pub open spec fn is_terminal_message(message: DownloaderMessageView) -> bool {
    match message {
        DownloaderMessageView::State(state) => state.is_terminal(),
        DownloaderMessageView::Result(_) => false,
    }
}

/// What holds of a worker and the messages it has sent so far, whatever the
/// events were.
pub open spec fn orderly(
    id: Seq<char>,
    worker: DownloaderView,
    sent: Seq<DownloaderMessageView>,
) -> bool {
    &&& worker.id == id
    &&& forall|i: int| 0 <= i < sent.len() ==> (#[trigger] sent[i]).downloader_id() == id
    &&& forall|i: int|
        0 <= i < sent.len() && (#[trigger] sent[i]) is Result ==> i > 0 && sent[i - 1] == downloading(
            id,
            sent[i]->Result_0.youtube_id(),
        )
    &&& forall|i: int|
        0 <= i < sent.len() && is_terminal_message(#[trigger] sent[i]) ==> i == sent.len() - 1
            && worker.phase.is_terminal()
    &&& worker.phase matches WorkerPhaseView::Busy { youtube_id } ==> sent.len() > 0 && sent.last()
        == downloading(id, youtube_id)
    &&& worker.phase.is_terminal() ==> sent.len() > 0 && is_terminal_message(sent.last())
}

/// One step keeps a worker and its messages orderly.
proof fn lemma_step_orderly(
    id: Seq<char>,
    worker: DownloaderView,
    sent: Seq<DownloaderMessageView>,
    event: WorkerEventView,
)
    requires
        orderly(id, worker, sent),
    ensures
        orderly(id, worker.step(event).0, with_message(sent, worker.step(event).1.message)),
{
    let next = worker.step(event);
    let after = with_message(sent, next.1.message);
    if next.1.message is Some {
        assert forall|i: int| 0 <= i < after.len() implies (#[trigger] after[i]).downloader_id()
            == id by {
            if i < sent.len() {
                assert(after[i] == sent[i]);
            }
        }
        assert forall|i: int| 0 <= i < after.len() && (#[trigger] after[i]) is Result implies i > 0
            && after[i - 1] == downloading(id, after[i]->Result_0.youtube_id()) by {
            if i < sent.len() {
                assert(after[i] == sent[i]);
                assert(after[i - 1] == sent[i - 1]);
            } else {
                assert(after[i - 1] == sent.last());
            }
        }
        assert forall|i: int| 0 <= i < after.len() && is_terminal_message(#[trigger] after[i]) implies i
            == after.len() - 1 && next.0.phase.is_terminal() by {
            if i < sent.len() {
                assert(after[i] == sent[i]);
            }
        }
    }
}

/// A run of events keeps a worker and its messages orderly.
proof fn lemma_run_orderly(worker: DownloaderView, events: Seq<WorkerEventView>)
    requires
        worker.phase is Created,
    ensures
        orderly(worker.id, run(worker, events).0, run(worker, events).1),
    decreases events.len(),
{
    if events.len() > 0 {
        lemma_run_orderly(worker, events.drop_last());
        let before = run(worker, events.drop_last());
        lemma_step_orderly(worker.id, before.0, before.1, events.last());
    }
}

/// Whatever a new worker is told, each result that it sends comes directly
/// after its message that it downloads that very job: the state is seen
/// before the result.
pub proof fn lemma_downloading_precedes_result(
    worker: DownloaderView,
    events: Seq<WorkerEventView>,
    i: int,
)
    requires
        worker.phase is Created,
        0 <= i < run(worker, events).1.len(),
        run(worker, events).1[i] is Result,
    ensures
        i > 0,
        run(worker, events).1[i - 1] == downloading(
            worker.id,
            run(worker, events).1[i]->Result_0.youtube_id(),
        ),
        run(worker, events).1[i]->Result_0.downloader_id() == worker.id,
{
    lemma_run_orderly(worker, events);
    let sent = run(worker, events).1;
    assert(sent[i].downloader_id() == worker.id);
}

/// Whatever a new worker is told, every message that it sends carries its
/// name.
pub proof fn lemma_messages_carry_worker_id(
    worker: DownloaderView,
    events: Seq<WorkerEventView>,
    i: int,
)
    requires
        worker.phase is Created,
        0 <= i < run(worker, events).1.len(),
    ensures
        run(worker, events).1[i].downloader_id() == worker.id,
{
    lemma_run_orderly(worker, events);
}

/// Whatever a new worker is told, it sends at most one message that says
/// that it stopped for good, as its last message, and it has sent that
/// message exactly if it has stopped.
pub proof fn lemma_terminal_message_is_last(worker: DownloaderView, events: Seq<WorkerEventView>)
    requires
        worker.phase is Created,
    ensures
        forall|i: int|
            0 <= i < run(worker, events).1.len() && is_terminal_message(
                #[trigger] run(worker, events).1[i],
            ) ==> i == run(worker, events).1.len() - 1,
        run(worker, events).0.phase.is_terminal() <==> run(worker, events).1.len() > 0
            && is_terminal_message(run(worker, events).1.last()),
{
    lemma_run_orderly(worker, events);
    let sent = run(worker, events).1;
    if sent.len() > 0 && is_terminal_message(sent.last()) {
        assert(is_terminal_message(sent[sent.len() - 1]));
    }
}

/// A job as the queue hands it out, with how the downloader ends on it and
/// what it writes.
pub struct AttemptView {
    pub youtube_id: Seq<char>,
    pub success: bool,
    pub stdout: Seq<u8>,
    pub stderr: Seq<u8>,
}

/// The events of taking jobs one after another: each job is handed out, and
/// then the downloader ends on it.
pub open spec fn attempt_events(attempts: Seq<AttemptView>) -> Seq<WorkerEventView>
    decreases attempts.len(),
{
    if attempts.len() == 0 {
        Seq::empty()
    } else {
        let last = attempts.last();
        attempt_events(attempts.drop_last()) + seq![
            WorkerEventView::Job { youtube_id: last.youtube_id },
            WorkerEventView::Exited {
                success: last.success,
                stdout: last.stdout,
                stderr: last.stderr,
            },
        ]
    }
}

/// The events of a worker's whole life: it is started, takes jobs one after
/// another, and finds the queue closed.
pub open spec fn whole_run(attempts: Seq<AttemptView>) -> Seq<WorkerEventView> {
    seq![WorkerEventView::Started] + attempt_events(attempts) + seq![WorkerEventView::QueueClosed]
}

/// Whether the downloader wrote text on every job.
pub open spec fn all_readable(attempts: Seq<AttemptView>) -> bool {
    forall|i: int|
        0 <= i < attempts.len() ==> valid_utf8((#[trigger] attempts[i]).stdout) && valid_utf8(
            attempts[i].stderr,
        )
}

/// The result that a worker sends for a job on which the downloader wrote
/// text.
pub open spec fn result_message(downloader_id: Seq<char>, attempt: AttemptView) -> DownloaderMessageView {
    DownloaderMessageView::Result(
        classify(
            downloader_id,
            attempt.youtube_id,
            attempt.success,
            decode_utf8(attempt.stdout),
            decode_utf8(attempt.stderr),
        ),
    )
}

/// Running through two lists of events is running through the first and
/// then, from where that ended, through the second.
proof fn lemma_run_append(worker: DownloaderView, first: Seq<WorkerEventView>, second: Seq<WorkerEventView>)
    ensures
        run(worker, first + second).0 == run(run(worker, first).0, second).0,
        run(worker, first + second).1 == run(worker, first).1 + run(run(worker, first).0, second).1,
    decreases second.len(),
{
    if second.len() == 0 {
        assert(first + second =~= first);
        assert(run(worker, first).1 + Seq::<DownloaderMessageView>::empty() =~= run(worker, first).1);
    } else {
        let all = first + second;
        assert(all.drop_last() =~= first + second.drop_last());
        assert(all.last() == second.last());
        lemma_run_append(worker, first, second.drop_last());
        let middle = run(worker, first).0;
        let before = run(middle, second.drop_last());
        let last = before.0.step(second.last());
        assert(run(worker, first).1 + with_message(before.1, last.1.message) =~= with_message(
            run(worker, first).1 + before.1,
            last.1.message,
        ));
    }
}

/// One event, from any worker.
proof fn lemma_run_one(worker: DownloaderView, event: WorkerEventView)
    ensures
        run(worker, seq![event]).0 == worker.step(event).0,
        run(worker, seq![event]).1 == with_message(Seq::empty(), worker.step(event).1.message),
{
    let events = seq![event];
    let none = Seq::<WorkerEventView>::empty();
    assert(events.drop_last() =~= none);
    assert(events.last() == event);
    assert(run(worker, none) == (worker, Seq::<DownloaderMessageView>::empty()));
    assert(run(worker, events).0 == run(worker, events.drop_last()).0.step(events.last()).0);
}

/// An idle worker that takes jobs one after another, on each of which the
/// downloader writes text, is idle again afterwards and has sent two
/// messages for each job: that it downloads the job, and the job's result.
proof fn lemma_attempts_run(worker: DownloaderView, attempts: Seq<AttemptView>)
    requires
        worker.phase is Idle,
        all_readable(attempts),
    ensures
        run(worker, attempt_events(attempts)).0 == worker,
        run(worker, attempt_events(attempts)).1.len() == 2 * attempts.len(),
        forall|i: int|
            0 <= i < attempts.len() ==> {
                &&& run(worker, attempt_events(attempts)).1[2 * i] == downloading(
                    worker.id,
                    (#[trigger] attempts[i]).youtube_id,
                )
                &&& run(worker, attempt_events(attempts)).1[2 * i + 1] == result_message(
                    worker.id,
                    attempts[i],
                )
            },
    decreases attempts.len(),
{
    if attempts.len() > 0 {
        let front = attempts.drop_last();
        let last = attempts.last();
        let job = WorkerEventView::Job { youtube_id: last.youtube_id };
        let exited = WorkerEventView::Exited {
            success: last.success,
            stdout: last.stdout,
            stderr: last.stderr,
        };
        assert(all_readable(front)) by {
            assert forall|i: int| 0 <= i < front.len() implies valid_utf8(
                (#[trigger] front[i]).stdout,
            ) && valid_utf8(front[i].stderr) by {
                assert(front[i] == attempts[i]);
            }
        }
        lemma_attempts_run(worker, front);
        assert(seq![job, exited] =~= seq![job] + seq![exited]);
        lemma_run_append(worker, attempt_events(front), seq![job] + seq![exited]);
        lemma_run_append(worker, seq![job], seq![exited]);
        lemma_run_one(worker, job);
        let busy = worker.step(job).0;
        lemma_run_one(busy, exited);
        assert(attempts[attempts.len() - 1] == last);
        assert(valid_utf8(last.stdout) && valid_utf8(last.stderr));
        let sent = run(worker, attempt_events(attempts)).1;
        let before = run(worker, attempt_events(front)).1;
        assert(sent =~= before + seq![
            downloading(worker.id, last.youtube_id),
            result_message(worker.id, last),
        ]);
        assert forall|i: int| 0 <= i < attempts.len() implies {
            &&& sent[2 * i] == downloading(worker.id, (#[trigger] attempts[i]).youtube_id)
            &&& sent[2 * i + 1] == result_message(worker.id, attempts[i])
        } by {
            if i < front.len() {
                assert(front[i] == attempts[i]);
                assert(sent[2 * i] == before[2 * i]);
                assert(sent[2 * i + 1] == before[2 * i + 1]);
            }
        }
    }
}

/// A new worker that is started, takes jobs one after another, on each of
/// which the downloader writes text, and then finds the queue closed, sends
/// exactly this: that it waits; for each job, in the order of the jobs,
/// that it downloads the job and then the job's result; and that it
/// finished. Each job gets its one result, and the worker ends finished.
pub proof fn lemma_whole_run(worker: DownloaderView, attempts: Seq<AttemptView>)
    requires
        worker.phase is Created,
        all_readable(attempts),
    ensures
        run(worker, whole_run(attempts)).0 == worker.at(WorkerPhaseView::Finished),
        run(worker, whole_run(attempts)).1.len() == 2 * attempts.len() + 2,
        run(worker, whole_run(attempts)).1[0] == DownloaderMessageView::State(
            DownloaderStateView::Waiting { downloader_id: worker.id },
        ),
        forall|i: int|
            0 <= i < attempts.len() ==> {
                &&& run(worker, whole_run(attempts)).1[2 * i + 1] == downloading(
                    worker.id,
                    (#[trigger] attempts[i]).youtube_id,
                )
                &&& run(worker, whole_run(attempts)).1[2 * i + 2] == result_message(
                    worker.id,
                    attempts[i],
                )
            },
        run(worker, whole_run(attempts)).1[2 * attempts.len() as int + 1] == DownloaderMessageView::State(
            DownloaderStateView::Finished { downloader_id: worker.id },
        ),
{
    let started = seq![WorkerEventView::Started];
    let closed = seq![WorkerEventView::QueueClosed];
    let idle = worker.at(WorkerPhaseView::Idle);
    lemma_run_one(worker, WorkerEventView::Started);
    lemma_attempts_run(idle, attempts);
    lemma_run_append(worker, started, attempt_events(attempts));
    lemma_run_one(idle, WorkerEventView::QueueClosed);
    lemma_run_append(worker, started + attempt_events(attempts), closed);
    let sent = run(worker, whole_run(attempts)).1;
    let middle = run(idle, attempt_events(attempts)).1;
    assert(sent =~= seq![
        DownloaderMessageView::State(DownloaderStateView::Waiting { downloader_id: worker.id }),
    ] + middle + seq![
        DownloaderMessageView::State(DownloaderStateView::Finished { downloader_id: worker.id }),
    ]);
    assert forall|i: int| 0 <= i < attempts.len() implies {
        &&& sent[2 * i + 1] == downloading(worker.id, (#[trigger] attempts[i]).youtube_id)
        &&& sent[2 * i + 2] == result_message(worker.id, attempts[i])
    } by {
        assert(sent[2 * i + 1] == middle[2 * i]);
        assert(sent[2 * i + 2] == middle[2 * i + 1]);
    }
}

} // verus!
