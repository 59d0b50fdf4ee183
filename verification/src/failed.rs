//! The list of the jobs that failed.

use vstd::prelude::*;

use crate::types::{Process, ProcessView};

verus! {

/// The line that the list shows for a job: its identifier alone, or its
/// identifier and what went wrong.
pub open spec fn failed_line(process: ProcessView, short: bool) -> Seq<char> {
    if short {
        process.youtube_id
    } else {
        process.youtube_id + " | "@ + (match process.error {
            Some(error) => error,
            None => Seq::empty(),
        })
    }
}

/// Writes the line that the list shows for a job.
pub fn failed_text(process: &Process, short: bool) -> (line: String)
    ensures
        line@ == failed_line(process@, short),
{
    if short {
        process.youtube_id.clone()
    } else {
        let line = process.youtube_id.clone().concat(" | ");
        match &process.error {
            Some(error) => line.concat(error.as_str()),
            None => {
                assert(line@ + Seq::<char>::empty() =~= line@);
                line
            },
        }
    }
}

} // verus!
