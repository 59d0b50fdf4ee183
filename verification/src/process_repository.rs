//! The job table: one row per video, keyed by the video's identifier.
//!
//! The table is held in memory in the order in which rows were first written.
//! Whoever stores it durably writes the same rows to disk.

use vstd::prelude::*;

use crate::types::{text_of, Process, ProcessState, ProcessView};

verus! {

/// The rows of a vector of jobs as plain data.
pub open spec fn rows_of(rows: Seq<Process>) -> Seq<ProcessView> {
    rows.map_values(|p: Process| p@)
}

/// Whether some row carries the identifier.
pub open spec fn has_id(rows: Seq<ProcessView>, id: Seq<char>) -> bool {
    exists|i: int| 0 <= i < rows.len() && (#[trigger] rows[i]).youtube_id == id
}

/// No identifier occurs in two rows.
pub open spec fn distinct_ids(rows: Seq<ProcessView>) -> bool {
    forall|i: int, j: int|
        0 <= i < j < rows.len() ==> (#[trigger] rows[i]).youtube_id != (#[trigger] rows[j]).youtube_id
}

/// The table after one row is written: a row whose identifier is already
/// there changes nothing, any other row is added at the end.
pub open spec fn insert_row(rows: Seq<ProcessView>, row: ProcessView) -> Seq<ProcessView> {
    if has_id(rows, row.youtube_id) {
        rows
    } else {
        rows.push(row)
    }
}

/// The table after a batch is written, row by row from the front.
pub open spec fn insert_many(rows: Seq<ProcessView>, batch: Seq<ProcessView>) -> Seq<ProcessView>
    decreases batch.len(),
{
    if batch.len() == 0 {
        rows
    } else {
        insert_row(insert_many(rows, batch.drop_last()), batch.last())
    }
}

/// The table after the row with the given identifier, if there is one, is
/// given a new state and error text. Every other row stays as it is.
pub open spec fn with_state(
    rows: Seq<ProcessView>,
    id: Seq<char>,
    state: ProcessState,
    error: Option<Seq<char>>,
) -> Seq<ProcessView> {
    rows.map_values(
        |row: ProcessView|
            if row.youtube_id == id {
                ProcessView { youtube_id: row.youtube_id, state, error }
            } else {
                row
            },
    )
}

/// The rows that are in the given state, in table order.
pub open spec fn in_state(rows: Seq<ProcessView>, state: ProcessState) -> Seq<ProcessView> {
    rows.filter(|row: ProcessView| row.state == state)
}

/// The first row of a batch that carries its identifier.
pub open spec fn first_of_its_id(batch: Seq<ProcessView>, j: int) -> bool {
    &&& 0 <= j < batch.len()
    &&& forall|k: int| 0 <= k < j ==> (#[trigger] batch[k]).youtube_id != batch[j].youtube_id
}

/// A batch write keeps the rows that were there, where and as they were.
pub proof fn lemma_insert_many_keeps_rows(rows: Seq<ProcessView>, batch: Seq<ProcessView>)
    ensures
        rows.len() <= insert_many(rows, batch).len(),
        insert_many(rows, batch).take(rows.len() as int) == rows,
    decreases batch.len(),
{
    if batch.len() == 0 {
        assert(rows.take(rows.len() as int) =~= rows);
    } else {
        let mid = insert_many(rows, batch.drop_last());
        lemma_insert_many_keeps_rows(rows, batch.drop_last());
        let after = insert_row(mid, batch.last());
        assert(after.take(rows.len() as int) =~= mid.take(rows.len() as int));
    }
}

/// After a batch write the table holds an identifier exactly if it held it
/// before or the batch carries it.
pub proof fn lemma_insert_many_ids(rows: Seq<ProcessView>, batch: Seq<ProcessView>, id: Seq<char>)
    ensures
        has_id(insert_many(rows, batch), id) <==> has_id(rows, id) || has_id(batch, id),
    decreases batch.len(),
{
    if batch.len() > 0 {
        let front = batch.drop_last();
        let last = batch.last();
        let mid = insert_many(rows, front);
        let after = insert_row(mid, last);
        lemma_insert_many_ids(rows, front, id);
        if has_id(batch, id) {
            let w = choose|w: int| 0 <= w < batch.len() && (#[trigger] batch[w]).youtube_id == id;
            if w < front.len() {
                assert(front[w].youtube_id == id);
            } else if !has_id(mid, id) {
                assert(after[mid.len() as int].youtube_id == id);
            }
        }
        if has_id(front, id) {
            let w = choose|w: int| 0 <= w < front.len() && (#[trigger] front[w]).youtube_id == id;
            assert(batch[w].youtube_id == id);
        }
        if has_id(mid, id) {
            let w = choose|w: int| 0 <= w < mid.len() && (#[trigger] mid[w]).youtube_id == id;
            assert(after[w].youtube_id == id);
        }
        if has_id(after, id) {
            let w = choose|w: int| 0 <= w < after.len() && (#[trigger] after[w]).youtube_id == id;
            if w < mid.len() {
                assert(mid[w].youtube_id == id);
            } else {
                assert(batch[batch.len() - 1].youtube_id == id);
            }
        }
    }
}

/// Every row that a batch write adds is a row of the batch, and its
/// identifier was not in the table before.
pub proof fn lemma_insert_many_added(rows: Seq<ProcessView>, batch: Seq<ProcessView>, k: int)
    requires
        rows.len() <= k < insert_many(rows, batch).len(),
    ensures
        batch.contains(insert_many(rows, batch)[k]),
        !has_id(rows, insert_many(rows, batch)[k].youtube_id),
    decreases batch.len(),
{
    if batch.len() > 0 {
        let front = batch.drop_last();
        let last = batch.last();
        let mid = insert_many(rows, front);
        if k < mid.len() {
            lemma_insert_many_added(rows, front, k);
            let w = choose|w: int| 0 <= w < front.len() && front[w] == mid[k];
            assert(batch[w] == mid[k]);
        } else {
            assert(batch[batch.len() - 1] == last);
            lemma_insert_many_ids(rows, front, last.youtube_id);
        }
    }
}

/// Of the batch rows that share an identifier new to the table, the first is
/// the one that is stored.
pub proof fn lemma_insert_many_first_wins(rows: Seq<ProcessView>, batch: Seq<ProcessView>, j: int)
    requires
        first_of_its_id(batch, j),
        !has_id(rows, batch[j].youtube_id),
    ensures
        insert_many(rows, batch).contains(batch[j]),
    decreases batch.len(),
{
    let front = batch.drop_last();
    let last = batch.last();
    let mid = insert_many(rows, front);
    let after = insert_row(mid, last);
    if j < front.len() {
        assert forall|k: int| 0 <= k < j implies (#[trigger] front[k]).youtube_id
            != front[j].youtube_id by {
            assert(batch[k].youtube_id != batch[j].youtube_id);
        }
        lemma_insert_many_first_wins(rows, front, j);
        let w = choose|w: int| 0 <= w < mid.len() && mid[w] == front[j];
        assert(after[w] == batch[j]);
    } else {
        if has_id(front, last.youtube_id) {
            let w = choose|w: int|
                0 <= w < front.len() && (#[trigger] front[w]).youtube_id == last.youtube_id;
            assert(batch[w].youtube_id == batch[j].youtube_id);
        }
        lemma_insert_many_ids(rows, front, last.youtube_id);
        assert(after[mid.len() as int] == last);
    }
}

/// A batch write never brings an identifier into the table twice.
pub proof fn lemma_insert_many_distinct(rows: Seq<ProcessView>, batch: Seq<ProcessView>)
    requires
        distinct_ids(rows),
    ensures
        distinct_ids(insert_many(rows, batch)),
    decreases batch.len(),
{
    if batch.len() > 0 {
        let mid = insert_many(rows, batch.drop_last());
        let after = insert_row(mid, batch.last());
        lemma_insert_many_distinct(rows, batch.drop_last());
        assert forall|i: int, j: int| 0 <= i < j < after.len() implies (#[trigger] after[i]).youtube_id
            != (#[trigger] after[j]).youtube_id by {
            if j < mid.len() {
                assert(after[i] == mid[i] && after[j] == mid[j]);
            } else {
                assert(after[i] == mid[i]);
            }
        }
    }
}

/// Writing rows whose identifiers the table already holds changes nothing.
pub proof fn lemma_insert_known_ids(rows: Seq<ProcessView>, batch: Seq<ProcessView>)
    requires
        forall|j: int| 0 <= j < batch.len() ==> has_id(rows, (#[trigger] batch[j]).youtube_id),
    ensures
        insert_many(rows, batch) == rows,
    decreases batch.len(),
{
    if batch.len() > 0 {
        let front = batch.drop_last();
        assert forall|j: int| 0 <= j < front.len() implies has_id(
            rows,
            (#[trigger] front[j]).youtube_id,
        ) by {
            assert(front[j] == batch[j]);
        }
        lemma_insert_known_ids(rows, front);
        assert(has_id(rows, batch[batch.len() - 1].youtube_id));
    }
}

/// Writing a batch of pending jobs leaves exactly one row for each identifier,
/// however often the batch repeats it: no identifier occurs twice, every
/// identifier of the batch has its row, and each row that was added is
/// pending. Writing the same batch once more changes nothing.
pub proof fn lemma_save_many_is_idempotent(rows: Seq<ProcessView>, batch: Seq<ProcessView>)
    requires
        distinct_ids(rows),
        forall|j: int| 0 <= j < batch.len() ==> (#[trigger] batch[j]).state == ProcessState::Pending,
    ensures
        distinct_ids(insert_many(rows, batch)),
        forall|j: int|
            0 <= j < batch.len() ==> has_id(insert_many(rows, batch), (#[trigger] batch[j]).youtube_id),
        forall|k: int|
            rows.len() <= k < insert_many(rows, batch).len() ==> (#[trigger] insert_many(
                rows,
                batch,
            )[k]).state == ProcessState::Pending,
        insert_many(insert_many(rows, batch), batch) == insert_many(rows, batch),
{
    let after = insert_many(rows, batch);
    lemma_insert_many_distinct(rows, batch);
    assert forall|j: int| 0 <= j < batch.len() implies has_id(
        after,
        (#[trigger] batch[j]).youtube_id,
    ) by {
        lemma_insert_many_ids(rows, batch, batch[j].youtube_id);
    }
    assert forall|k: int| rows.len() <= k < after.len() implies (#[trigger] after[k]).state
        == ProcessState::Pending by {
        lemma_insert_many_added(rows, batch, k);
    }
    lemma_insert_known_ids(after, batch);
}

/// The job table.
pub struct ProcessRepository {
    rows: Vec<Process>,
}

impl View for ProcessRepository {
    type V = Seq<ProcessView>;

    closed spec fn view(&self) -> Seq<ProcessView> {
        rows_of(self.rows@)
    }
}

impl ProcessRepository {
    /// What every table satisfies: no identifier occurs in two rows.
    pub open spec fn wf(&self) -> bool {
        distinct_ids(self@)
    }

    /// An empty table.
    pub fn new() -> (table: ProcessRepository)
        ensures
            table@ == Seq::<ProcessView>::empty(),
            table.wf(),
    {
        let table = ProcessRepository { rows: Vec::new() };
        assert(table@ =~= Seq::<ProcessView>::empty());
        table
    }

    /// The number of rows.
    pub fn len(&self) -> (n: usize)
        ensures
            n == self@.len(),
    {
        self.rows.len()
    }

    /// Where the row with the given identifier stands.
    fn position(&self, id: &String) -> (found: Option<usize>)
        ensures
            match found {
                Some(i) => i < self@.len() && self@[i as int].youtube_id == id@,
                None => !has_id(self@, id@),
            },
    {
        let mut i: usize = 0;
        while i < self.rows.len()
            invariant
                i <= self.rows.len(),
                forall|k: int| 0 <= k < i ==> (#[trigger] self@[k]).youtube_id != id@,
            decreases self.rows.len() - i,
        {
            if self.rows[i].youtube_id == *id {
                return Some(i);
            }
            i += 1;
        }
        None
    }

    /// The row with the given identifier, if the table has one.
    pub fn get(&self, id: &str) -> (row: Option<Process>)
        ensures
            match row {
                Some(p) => self@.contains(p@) && p@.youtube_id == id@,
                None => !has_id(self@, id@),
            },
    {
        let key = id.to_owned();
        match self.position(&key) {
            Some(i) => {
                let p = self.rows[i].clone();
                assert(self@[i as int] == p@);
                Some(p)
            },
            None => None,
        }
    }

    /// The rows in the given state, in table order.
    pub fn get_by_state(&self, state: ProcessState) -> (found: Vec<Process>)
        ensures
            rows_of(found@) == in_state(self@, state),
    {
        let mut found: Vec<Process> = Vec::new();
        let mut i: usize = 0;
        proof {
            reveal(Seq::filter);
            assert(self@.take(0) =~= Seq::<ProcessView>::empty());
            assert(rows_of(found@) =~= in_state(self@.take(0), state));
        }
        while i < self.rows.len()
            invariant
                i <= self.rows.len(),
                rows_of(found@) == in_state(self@.take(i as int), state),
            decreases self.rows.len() - i,
        {
            proof {
                reveal(Seq::filter);
                assert(self@.take(i + 1).drop_last() =~= self@.take(i as int));
                assert(self@.take(i + 1).last() == self@[i as int]);
            }
            if self.rows[i].state == state {
                let p = self.rows[i].clone();
                found.push(p);
                assert(rows_of(found@) =~= in_state(self@.take(i + 1), state));
            }
            i += 1;
        }
        assert(self@.take(i as int) =~= self@);
        found
    }

    /// Writes one row unless its identifier is already in the table, and
    /// says whether it wrote it.
    fn save(&mut self, process: &Process) -> (written: bool)
        requires
            old(self).wf(),
        ensures
            final(self)@ == insert_row(old(self)@, process@),
            written == !has_id(old(self)@, process@.youtube_id),
            final(self).wf(),
    {
        if self.position(&process.youtube_id).is_none() {
            let row = process.clone();
            self.rows.push(row);
            assert(self@ =~= old(self)@.push(process@));
            true
        } else {
            false
        }
    }

    /// Writes a batch of rows. A row whose identifier the table already holds,
    /// from before or from earlier in the batch, is passed over: the first
    /// write of an identifier stands. The rows that were there stay as they
    /// were; the rows that were added are returned, in the order in which
    /// they now follow the old ones.
    pub fn save_many(&mut self, processes: &Vec<Process>) -> (added: Vec<Process>)
        requires
            old(self).wf(),
        ensures
            final(self)@ == insert_many(old(self)@, rows_of(processes@)),
            final(self)@ == old(self)@ + rows_of(added@),
            final(self).wf(),
    {
        let mut added: Vec<Process> = Vec::new();
        let mut i: usize = 0;
        assert(self@ =~= old(self)@ + rows_of(added@));
        while i < processes.len()
            invariant
                i <= processes.len(),
                self@ == insert_many(old(self)@, rows_of(processes@).take(i as int)),
                self@ == old(self)@ + rows_of(added@),
                self.wf(),
            decreases processes.len() - i,
        {
            proof {
                let batch = rows_of(processes@);
                assert(batch.take(i + 1).drop_last() =~= batch.take(i as int));
                assert(batch.take(i + 1).last() == processes@[i as int]@);
            }
            if self.save(&processes[i]) {
                let ghost before = rows_of(added@);
                added.push(processes[i].clone());
                assert(rows_of(added@) =~= before.push(processes@[i as int]@));
                assert(self@ =~= old(self)@ + rows_of(added@));
            }
            i += 1;
        }
        assert(rows_of(processes@).take(i as int) =~= rows_of(processes@));
        added
    }

    /// Gives the row with the identifier a new state and error text.
    fn mark(&mut self, id: &str, state: ProcessState, error: Option<String>)
        requires
            old(self).wf(),
        ensures
            final(self)@ == with_state(old(self)@, id@, state, text_of(error)),
            final(self).wf(),
    {
        let key = id.to_owned();
        match self.position(&key) {
            Some(i) => {
                let row = Process { youtube_id: key, state, error };
                self.rows.set(i, row);
                assert(self@ =~= with_state(old(self)@, id@, state, text_of(error)));
            },
            None => {
                assert(self@ =~= with_state(old(self)@, id@, state, text_of(error)));
            },
        }
    }

    /// Marks a job as downloaded and clears its error text. A job that the
    /// table does not hold is passed over in silence.
    pub fn finish(&mut self, id: &str)
        requires
            old(self).wf(),
        ensures
            final(self)@ == with_state(old(self)@, id@, ProcessState::Finished, None),
            final(self).wf(),
    {
        self.mark(id, ProcessState::Finished, None);
    }

    /// Marks a job as failed, with the downloader's diagnostic text. A job
    /// that the table does not hold is passed over in silence.
    pub fn fail(&mut self, id: &str, error: &str)
        requires
            old(self).wf(),
        ensures
            final(self)@ == with_state(old(self)@, id@, ProcessState::Failed, Some(error@)),
            final(self).wf(),
    {
        self.mark(id, ProcessState::Failed, Some(error.to_owned()));
    }

    /// Marks a job as skipped and clears its error text. A job that the
    /// table does not hold is passed over in silence.
    pub fn skip(&mut self, id: &str)
        requires
            old(self).wf(),
        ensures
            final(self)@ == with_state(old(self)@, id@, ProcessState::Skipped, None),
            final(self).wf(),
    {
        self.mark(id, ProcessState::Skipped, None);
    }
}

} // verus!
