//! What the progress screen shows for a worker and for a result, and which
//! keys end a run.

use vstd::prelude::*;

use crate::downloader::{DownloadResult, DownloadResultView, DownloaderState, DownloaderStateView};

verus! {

/// The colours in which the screen shows text.
#[derive(Clone, Copy, Debug, PartialEq, Eq, Structural)]
pub enum SpanColor {
    Gray,
    Red,
    Green,
}

/// A piece of text for the screen: its characters, and its colour where it
/// is not the screen's own.
#[derive(Debug, PartialEq, Eq)]
pub struct TextSpan {
    pub content: String,
    pub color: Option<SpanColor>,
}

/// A piece of text as plain data.
pub struct TextSpanView {
    pub content: Seq<char>,
    pub color: Option<SpanColor>,
}

impl View for TextSpan {
    type V = TextSpanView;

    open spec fn view(&self) -> TextSpanView {
        TextSpanView { content: self.content@, color: self.color }
    }
}

/// What the screen shows for a worker: its name and what it is doing, in
/// the screen's own colour.
pub open spec fn state_span(state: DownloaderStateView) -> TextSpanView {
    TextSpanView {
        content: match state {
            DownloaderStateView::Downloading { downloader_id, youtube_id } => "["@ + downloader_id
                + "]: Downloading "@ + youtube_id,
            DownloaderStateView::Finished { downloader_id } => "["@ + downloader_id
                + "]: Finished"@,
            DownloaderStateView::Waiting { downloader_id } => "["@ + downloader_id + "]: Waiting"@,
            DownloaderStateView::Crashed { downloader_id } => "["@ + downloader_id + "]: Crashed"@,
        },
        color: None,
    }
}

/// Writes what the screen shows for a worker.
pub fn state_to_span(state: &DownloaderState) -> (span: TextSpan)
    ensures
        span@ == state_span(state@),
{
    let content = match state {
        DownloaderState::Downloading { downloader_id, youtube_id } => "[".to_owned().concat(
            downloader_id.as_str(),
        ).concat("]: Downloading ").concat(youtube_id.as_str()),
        DownloaderState::Finished { downloader_id } => "[".to_owned().concat(
            downloader_id.as_str(),
        ).concat("]: Finished"),
        DownloaderState::Waiting { downloader_id } => "[".to_owned().concat(
            downloader_id.as_str(),
        ).concat("]: Waiting"),
        DownloaderState::Crashed { downloader_id } => "[".to_owned().concat(
            downloader_id.as_str(),
        ).concat("]: Crashed"),
    };
    TextSpan { content, color: None }
}

/// What the screen shows for a result: the worker, the job and what came
/// of it; gray for a skipped job, red for a failed one with the reason,
/// green for a finished one.
pub open spec fn result_span(result: DownloadResultView) -> TextSpanView {
    match result {
        DownloadResultView::DownloadSkipped { downloader_id, youtube_id } => TextSpanView {
            content: "["@ + downloader_id + "] skipped "@ + youtube_id,
            color: Some(SpanColor::Gray),
        },
        DownloadResultView::DownloadFailed {
            downloader_id,
            youtube_id,
            error_message,
        } => TextSpanView {
            content: "["@ + downloader_id + "] failed "@ + youtube_id + " because "@
                + error_message,
            color: Some(SpanColor::Red),
        },
        DownloadResultView::DownloadFinished { downloader_id, youtube_id } => TextSpanView {
            content: "["@ + downloader_id + "] finished "@ + youtube_id,
            color: Some(SpanColor::Green),
        },
    }
}

/// Writes what the screen shows for a result.
pub fn result_to_span(result: &DownloadResult) -> (span: TextSpan)
    ensures
        span@ == result_span(result@),
{
    match result {
        DownloadResult::DownloadSkipped { downloader_id, youtube_id } => TextSpan {
            content: "[".to_owned().concat(downloader_id.as_str()).concat("] skipped ").concat(
                youtube_id.as_str(),
            ),
            color: Some(SpanColor::Gray),
        },
        DownloadResult::DownloadFailed { downloader_id, youtube_id, error_message } => TextSpan {
            content: "[".to_owned().concat(downloader_id.as_str()).concat("] failed ").concat(
                youtube_id.as_str(),
            ).concat(" because ").concat(error_message.as_str()),
            color: Some(SpanColor::Red),
        },
        DownloadResult::DownloadFinished { downloader_id, youtube_id } => TextSpan {
            content: "[".to_owned().concat(downloader_id.as_str()).concat("] finished ").concat(
                youtube_id.as_str(),
            ),
            color: Some(SpanColor::Green),
        },
    }
}

/// A key of the keyboard, as far as the screen tells keys apart.
#[derive(Clone, Copy, Debug, PartialEq, Eq, Structural)]
pub enum Key {
    Esc,
    Char(char),
    Other,
}

/// A key that was pressed.
#[derive(Clone, Copy, Debug, PartialEq, Eq, Structural)]
pub struct KeyPress {
    pub key: Key,
    /// Whether Control, and no other modifier, was held down.
    pub control: bool,
}

/// Whether a key asks to abort the run: Escape does, with any modifiers,
/// and so does `c` with Control.
pub open spec fn asks_to_quit(press: KeyPress) -> bool {
    press.key == Key::Esc || (press.control && press.key == Key::Char('c'))
}

/// Tells whether the user asked to abort the run. No key is no request.
pub fn should_quit(pressed: Option<KeyPress>) -> (quit: bool)
    ensures
        quit == (pressed matches Some(press) && asks_to_quit(press)),
{
    match pressed {
        Some(press) => match press.key {
            Key::Esc => true,
            Key::Char(c) => press.control && c == 'c',
            Key::Other => false,
        },
        None => false,
    }
}

} // verus!
