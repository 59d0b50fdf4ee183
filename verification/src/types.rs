//! The records shared by every part of the crate.

use vstd::prelude::*;

verus! {

/// A bookmark as a browser stores it.
#[derive(Debug, PartialEq, Eq)]
pub struct Bookmark {
    pub title: String,
    pub url: String,
}

/// A bookmark as plain data.
pub struct BookmarkView {
    pub title: Seq<char>,
    pub url: Seq<char>,
}

impl View for Bookmark {
    type V = BookmarkView;

    open spec fn view(&self) -> BookmarkView {
        BookmarkView { title: self.title@, url: self.url@ }
    }
}

/// The bookmarks of a vector of bookmarks as plain data.
pub open spec fn bookmarks_of(bookmarks: Seq<Bookmark>) -> Seq<BookmarkView> {
    bookmarks.map_values(|bookmark: Bookmark| bookmark@)
}

/// The states a job can be stored in.
#[derive(Clone, Copy, Debug, PartialEq, Eq, Structural)]
pub enum ProcessState {
    Pending,
    Failed,
    Finished,
    Skipped,
}

/// One row of the job table.
#[derive(Debug, PartialEq, Eq)]
pub struct Process {
    pub youtube_id: String,
    pub state: ProcessState,
    pub error: Option<String>,
}

/// A job row as plain mathematical data.
pub struct ProcessView {
    pub youtube_id: Seq<char>,
    pub state: ProcessState,
    pub error: Option<Seq<char>>,
}

/// The characters of an optional string.
pub open spec fn text_of(s: Option<String>) -> Option<Seq<char>> {
    match s {
        Some(t) => Some(t@),
        None => None,
    }
}

impl View for Process {
    type V = ProcessView;

    open spec fn view(&self) -> ProcessView {
        ProcessView { youtube_id: self.youtube_id@, state: self.state, error: text_of(self.error) }
    }
}

impl Clone for Process {
    fn clone(&self) -> (copy: Process)
        ensures
            copy@ == self@,
    {
        Process {
            youtube_id: self.youtube_id.clone(),
            state: self.state,
            error: clone_text(&self.error),
        }
    }
}

/// Copies an optional string.
pub fn clone_text(s: &Option<String>) -> (copy: Option<String>)
    ensures
        text_of(copy) == text_of(*s),
{
    match s {
        Some(t) => Some(t.clone()),
        None => None,
    }
}

/// Whether two string slices hold the same characters.
pub fn same_text(a: &str, b: &str) -> (same: bool)
    ensures
        same == (a@ == b@),
{
    a.to_owned() == b.to_owned()
}

impl ProcessState {
    /// The text under which a state is stored.
    pub open spec fn text(self) -> Seq<char> {
        match self {
            ProcessState::Pending => "pending"@,
            ProcessState::Failed => "failed"@,
            ProcessState::Finished => "finished"@,
            ProcessState::Skipped => "skipped"@,
        }
    }

    /// The state that a stored text stands for, if any.
    pub open spec fn of_text(text: Seq<char>) -> Option<ProcessState> {
        if text == "pending"@ {
            Some(ProcessState::Pending)
        } else if text == "failed"@ {
            Some(ProcessState::Failed)
        } else if text == "finished"@ {
            Some(ProcessState::Finished)
        } else if text == "skipped"@ {
            Some(ProcessState::Skipped)
        } else {
            None
        }
    }

    /// Writes the state as it is stored.
    pub fn as_text(&self) -> (text: &'static str)
        ensures
            text@ == self.text(),
    {
        match self {
            ProcessState::Pending => "pending",
            ProcessState::Failed => "failed",
            ProcessState::Finished => "finished",
            ProcessState::Skipped => "skipped",
        }
    }

    /// Reads a stored state back; `None` for any other text.
    pub fn from_text(text: &str) -> (state: Option<ProcessState>)
        ensures
            state == ProcessState::of_text(text@),
    {
        if same_text(text, "pending") {
            Some(ProcessState::Pending)
        } else if same_text(text, "failed") {
            Some(ProcessState::Failed)
        } else if same_text(text, "finished") {
            Some(ProcessState::Finished)
        } else if same_text(text, "skipped") {
            Some(ProcessState::Skipped)
        } else {
            None
        }
    }

    /// Reading back what was written gives the state that was written, and
    /// only the four stored texts read back as a state.
    pub proof fn lemma_text_round_trip(state: ProcessState, text: Seq<char>)
        ensures
            ProcessState::of_text(state.text()) == Some(state),
            ProcessState::of_text(text) == Some(state) <==> text == state.text(),
    {
        reveal_strlit("pending");
        reveal_strlit("failed");
        reveal_strlit("finished");
        reveal_strlit("skipped");
        assert("pending"@.len() == 7);
        assert("failed"@.len() == 6);
        assert("finished"@.len() == 8);
        assert("skipped"@.len() == 7);
        assert("pending"@[0] == 'p');
        assert("skipped"@[0] == 's');
    }
}

} // verus!
