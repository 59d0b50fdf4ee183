//! From bookmarks to jobs: which bookmark store a file is, and which of its
//! bookmarks become pending jobs.

use vstd::prelude::*;

use crate::process_repository::rows_of;
use crate::types::{bookmarks_of, same_text, Bookmark, BookmarkView, Process, ProcessState, ProcessView};
use crate::youtube::{get_youtube_video_id, parsed_url, video_id};

verus! {

/// The kinds of bookmark store that can be read.
#[derive(Clone, Copy, Debug, PartialEq, Eq, Structural)]
pub enum LibraryKind {
    Chromium,
    Firefox,
}

/// The kind of store that a file of this name is, if it is one.
pub open spec fn library_kind(file_name: Option<Seq<char>>) -> Option<LibraryKind> {
    match file_name {
        Some(name) => if name == "Bookmarks"@ || name == "Bookmarks.json"@ {
            Some(LibraryKind::Chromium)
        } else if name == "places.sqlite"@ {
            Some(LibraryKind::Firefox)
        } else {
            None
        },
        None => None,
    }
}

/// The name of a file, if it has one, as plain data.
pub open spec fn name_of(file_name: Option<&str>) -> Option<Seq<char>> {
    match file_name {
        Some(name) => Some(name@),
        None => None,
    }
}

/// Tells by a file's name which kind of bookmark store it is.
pub fn library_for(file_name: Option<&str>) -> (kind: Option<LibraryKind>)
    ensures
        kind == library_kind(name_of(file_name)),
{
    match file_name {
        Some(name) => {
            if same_text(name, "Bookmarks") || same_text(name, "Bookmarks.json") {
                Some(LibraryKind::Chromium)
            } else if same_text(name, "places.sqlite") {
                Some(LibraryKind::Firefox)
            } else {
                None
            }
        },
        None => None,
    }
}

/// The pending job for a video.
pub open spec fn pending(youtube_id: Seq<char>) -> ProcessView {
    ProcessView { youtube_id, state: ProcessState::Pending, error: None }
}

/// Makes the pending job for the video that a bookmark points to.
pub fn bookmark_to_process(_bookmark: &Bookmark, youtube_id: String) -> (process: Process)
    ensures
        process@ == pending(youtube_id@),
{
    Process { error: None, state: ProcessState::Pending, youtube_id }
}

/// The job that a bookmark becomes: a pending one for the video that its
/// address points to. A bookmark whose address is no address, or points to
/// no video, becomes none.
pub open spec fn job_of(bookmark: BookmarkView) -> Option<ProcessView> {
    match parsed_url(bookmark.url) {
        Some(parts) => match video_id(parts) {
            Some(youtube_id) => Some(pending(youtube_id)),
            None => None,
        },
        None => None,
    }
}

/// Makes the jobs for a list of bookmarks, in the order of the bookmarks.
pub fn bookmarks_to_processes(bookmarks: &Vec<Bookmark>) -> (processes: Vec<Process>)
    ensures
        rows_of(processes@) == bookmarks_of(bookmarks@).filter_map(|b: BookmarkView| job_of(b)),
{
    let ghost job = |b: BookmarkView| job_of(b);
    let mut processes: Vec<Process> = Vec::new();
    let mut i: usize = 0;
    assert(bookmarks_of(bookmarks@).take(0).filter_map(job) =~= rows_of(processes@));
    while i < bookmarks.len()
        invariant
            i <= bookmarks.len(),
            job == |b: BookmarkView| job_of(b),
            rows_of(processes@) == bookmarks_of(bookmarks@).take(i as int).filter_map(job),
        decreases bookmarks.len() - i,
    {
        proof {
            let upto = bookmarks_of(bookmarks@).take(i + 1);
            assert(upto.drop_last() =~= bookmarks_of(bookmarks@).take(i as int));
            assert(upto.last() == bookmarks@[i as int]@);
        }
        let ghost before = rows_of(processes@);
        let found = match get_youtube_video_id(bookmarks[i].url.as_str()) {
            Ok(found) => found,
            Err(_) => None,
        };
        match found {
            Some(youtube_id) => {
                let process = bookmark_to_process(&bookmarks[i], youtube_id);
                processes.push(process);
                assert(rows_of(processes@) =~= before + seq![process@]);
            },
            None => {},
        }
        i += 1;
    }
    assert(bookmarks_of(bookmarks@).take(i as int) =~= bookmarks_of(bookmarks@));
    processes
}

} // verus!
