use vstd::prelude::*;

use crate::text::{char_is_whitespace, display_file_name, display_name};

verus! {

/// Where the cleaning of a dropped file stands.
#[derive(Debug)]
pub enum CleanState {
    /// The file is being cleaned.
    Cleaning,
    /// The file was cleaned: `before` tags were counted before, `after` after.
    Done { before: usize, after: usize },
    /// Cleaning failed, for the reason given.
    Failed(String),
}

/// A `CleanState` with its reason as text.
pub enum StateView {
    Cleaning,
    Done { before: usize, after: usize },
    Failed(Seq<char>),
}

impl View for CleanState {
    type V = StateView;

    open spec fn view(&self) -> StateView {
        match self {
            CleanState::Cleaning => StateView::Cleaning,
            CleanState::Done { before, after } => StateView::Done { before: *before, after: *after },
            CleanState::Failed(reason) => StateView::Failed(reason@),
        }
    }
}

impl CleanState {
    /// Whether cleaning is done and left fewer tags than it found: the table highlights
    /// the count after cleaning then.
    pub fn removed_tags(&self) -> (fewer: bool)
        ensures
            fewer == (self@ matches StateView::Done { before, after } && after < before),
    {
        match self {
            CleanState::Done { before, after } => *after < *before,
            _ => false,
        }
    }
}

/// One dropped file in the table.
#[derive(Debug)]
pub struct FileRow {
    pub id: u64,
    pub name: String,
    pub state: CleanState,
}

/// A `FileRow` with its name as text.
pub struct RowView {
    pub id: u64,
    pub name: Seq<char>,
    pub state: StateView,
}

impl View for FileRow {
    type V = RowView;

    open spec fn view(&self) -> RowView {
        RowView { id: self.id, name: self.name@, state: self.state@ }
    }
}

/// The outcome of cleaning the file of row `id`: the tag counts before and after, or the
/// reason it failed.
#[derive(Debug)]
pub struct CleanResult {
    pub id: u64,
    pub result: Result<(usize, usize), String>,
}

/// A `CleanResult` as the state it gives its row.
pub struct ResultView {
    pub id: u64,
    pub state: StateView,
}

/// The state that a cleaning outcome gives its row.
pub open spec fn outcome_state(result: Result<(usize, usize), String>) -> StateView {
    match result {
        Ok((before, after)) => StateView::Done { before, after },
        Err(reason) => StateView::Failed(reason@),
    }
}

impl View for CleanResult {
    type V = ResultView;

    open spec fn view(&self) -> ResultView {
        ResultView { id: self.id, state: outcome_state(self.result) }
    }
}

/// The state of a row with id `id` that started in `state` once the outcomes `results` have
/// come in, in order: that of the last outcome for `id`, if any.
pub open spec fn settled_state(state: StateView, id: u64, results: Seq<ResultView>) -> StateView
    decreases results.len(),
{
    if results.len() == 0 {
        state
    } else if results.last().id == id {
        results.last().state
    } else {
        settled_state(state, id, results.drop_last())
    }
}

/// Outcomes that name another id leave a row's state as it was.
pub proof fn lemma_other_results_ignored(state: StateView, id: u64, results: Seq<ResultView>)
    requires
        forall|k: int| 0 <= k < results.len() ==> #[trigger] results[k].id != id,
    ensures
        settled_state(state, id, results) == state,
    decreases results.len(),
{
    if results.len() > 0 {
        lemma_other_results_ignored(state, id, results.drop_last());
    }
}

/// Receiving outcomes in two batches leaves a row as receiving them all at once does.
pub proof fn lemma_results_in_batches(
    state: StateView,
    id: u64,
    first: Seq<ResultView>,
    second: Seq<ResultView>,
)
    ensures
        settled_state(settled_state(state, id, first), id, second) == settled_state(
            state,
            id,
            first + second,
        ),
    decreases second.len(),
{
    if second.len() == 0 {
        assert(first + second =~= first);
    } else {
        assert((first + second).drop_last() =~= first + second.drop_last());
        assert((first + second).last() == second.last());
        lemma_results_in_batches(state, id, first, second.drop_last());
    }
}

/// Outcomes for files of an earlier drop, whose ids were given out before the current
/// rows were made, change none of the current rows.
pub proof fn lemma_earlier_drop_ignored(
    earlier_next_id: u64,
    rows: Seq<RowView>,
    results: Seq<ResultView>,
)
    requires
        forall|k: int| 0 <= k < rows.len() ==> #[trigger] rows[k].id == earlier_next_id + k,
        forall|r: int| 0 <= r < results.len() ==> #[trigger] results[r].id < earlier_next_id,
    ensures
        forall|k: int|
            0 <= k < rows.len() ==> settled_state(#[trigger] rows[k].state, rows[k].id, results)
                == rows[k].state,
{
    assert forall|k: int| 0 <= k < rows.len() implies settled_state(
        #[trigger] rows[k].state,
        rows[k].id,
        results,
    ) == rows[k].state by {
        lemma_other_results_ignored(rows[k].state, rows[k].id, results);
    }
}

/// A row's state is decided by the outcomes for its id alone: with none it stays as it
/// was; the last one for it gives its state, whatever came before: the counts before
/// and after cleaning when cleaning succeeded, whatever they are, or the reason when it
/// failed; an outcome for another id changes nothing.
pub proof fn lemma_outcome_decides_row(
    state: StateView,
    id: u64,
    earlier: Seq<ResultView>,
    result: CleanResult,
    before: usize,
    after: usize,
    reason: String,
)
    ensures
        settled_state(state, id, Seq::empty()) == state,
        result.id == id ==> settled_state(state, id, earlier.push(result@)) == (match result.result {
            Ok((done_before, done_after)) => (StateView::Done {
                before: done_before,
                after: done_after,
            }),
            Err(why) => StateView::Failed(why@),
        }),
        result.id != id ==> settled_state(state, id, earlier.push(result@)) == settled_state(
            state,
            id,
            earlier,
        ),
        settled_state(
            state,
            id,
            seq![(CleanResult { id, result: Ok((before, after)) })@],
        ) == (StateView::Done { before, after }),
        settled_state(
            state,
            id,
            seq![(CleanResult { id, result: Err(reason) })@],
        ) == StateView::Failed(reason@),
{
    assert(earlier.push(result@).drop_last() =~= earlier);
    assert(seq![(CleanResult { id, result: Ok((before, after)) })@].drop_last() =~= Seq::<
        ResultView,
    >::empty());
    assert(seq![(CleanResult { id, result: Err(reason) })@].drop_last() =~= Seq::<
        ResultView,
    >::empty());
}

/// The name of a row is the whole file name as shown: as long as the file name, with
/// each character that is not whitespace kept where it stands and each whitespace
/// character turned into a plain space; a file whose name could not be read is called
/// "Unnamed file".
pub proof fn lemma_row_names(name: String)
    ensures
        row_name(Some(name)).len() == name@.len(),
        forall|i: int|
            0 <= i < name@.len() && !char_is_whitespace(name@[i]) ==> #[trigger] row_name(
                Some(name),
            )[i] == name@[i],
        forall|i: int|
            0 <= i < name@.len() && char_is_whitespace(name@[i]) ==> #[trigger] row_name(
                Some(name),
            )[i] == ' ',
        row_name(None) == "Unnamed file"@,
{
}

/// The table of files of the last drop, with the id that the next file will get.
pub struct CleanerApp {
    rows: Vec<FileRow>,
    next_id: u64,
}

/// A `CleanerApp` as its rows' views and the next id.
pub struct TableView {
    pub rows: Seq<RowView>,
    pub next_id: u64,
}

impl View for CleanerApp {
    type V = TableView;

    closed spec fn view(&self) -> TableView {
        TableView { rows: self.rows@.map_values(|row: FileRow| row@), next_id: self.next_id }
    }
}

/// Row ids increase down the table and are all below the next id.
pub open spec fn table_wf(table: TableView) -> bool {
    &&& forall|i: int, j: int|
        0 <= i < j < table.rows.len() ==> #[trigger] table.rows[i].id < #[trigger] table.rows[j].id
    &&& forall|i: int| 0 <= i < table.rows.len() ==> #[trigger] table.rows[i].id < table.next_id
}

/// The name shown for a dropped file whose name could be read (`Some`) or not (`None`).
pub open spec fn row_name(name: Option<String>) -> Seq<char> {
    match name {
        Some(name) => display_name(name@),
        None => "Unnamed file"@,
    }
}

impl CleanerApp {
    #[verifier::type_invariant]
    closed spec fn inv(self) -> bool {
        table_wf(self@)
    }

    /// An empty table; the first file will get id 0.
    pub fn new() -> (app: Self)
        ensures
            app@.rows.len() == 0,
            app@.next_id == 0,
            table_wf(app@),
    {
        CleanerApp { rows: Vec::new(), next_id: 0 }
    }

    /// Starts a new drop: the rows of the previous drop are replaced by one row per
    /// dropped file, in order, each `Cleaning` and with the next id; `names` are the files'
    /// names where they could be read. Gives back the ids of the new rows.
    pub fn enqueue(&mut self, names: Vec<Option<String>>) -> (ids: Vec<u64>)
        requires
            old(self)@.next_id + names.len() <= u64::MAX,
        ensures
            final(self)@.next_id == old(self)@.next_id + names.len(),
            final(self)@.rows.len() == names.len(),
            ids@.len() == names.len(),
            forall|i: int|
                0 <= i < names.len() ==> #[trigger] final(self)@.rows[i] == (RowView {
                    id: (old(self)@.next_id + i) as u64,
                    name: row_name(names@[i]),
                    state: StateView::Cleaning,
                }),
            forall|i: int| 0 <= i < names.len() ==> #[trigger] ids@[i] == old(self)@.next_id + i,
            table_wf(final(self)@),
    {
        let first = self.next_id;
        let mut rows: Vec<FileRow> = Vec::new();
        let mut ids: Vec<u64> = Vec::new();
        let mut i: usize = 0;
        while i < names.len()
            invariant
                i <= names.len(),
                first + names.len() <= u64::MAX,
                rows@.len() == i,
                ids@.len() == i,
                forall|k: int|
                    0 <= k < i ==> #[trigger] rows@[k]@ == (RowView {
                        id: (first + k) as u64,
                        name: row_name(names@[k]),
                        state: StateView::Cleaning,
                    }),
                forall|k: int| 0 <= k < i ==> #[trigger] ids@[k] == first + k,
            decreases names.len() - i,
        {
            let id = first + i as u64;
            let name = match &names[i] {
                Some(name) => display_file_name(name.as_str()),
                None => "Unnamed file".to_owned(),
            };
            rows.push(FileRow { id, name, state: CleanState::Cleaning });
            ids.push(id);
            i = i + 1;
        }
        let next_id = first + names.len() as u64;
        let ghost table = TableView {
            rows: rows@.map_values(|row: FileRow| row@),
            next_id,
        };
        assert(table_wf(table));
        *self = CleanerApp { rows, next_id };
        assert(self@.rows =~= table.rows);
        ids
    }

    /// Records the outcomes of cleaning, in the order they came: each row whose id an
    /// outcome names takes the state of the last such outcome; outcomes for ids not in the
    /// table (those of an earlier drop) change nothing.
    pub fn receive_results(&mut self, results: Vec<CleanResult>)
        ensures
            final(self)@.next_id == old(self)@.next_id,
            final(self)@.rows.len() == old(self)@.rows.len(),
            forall|k: int|
                0 <= k < old(self)@.rows.len() ==> #[trigger] final(self)@.rows[k] == (RowView {
                    id: old(self)@.rows[k].id,
                    name: old(self)@.rows[k].name,
                    state: settled_state(
                        old(self)@.rows[k].state,
                        old(self)@.rows[k].id,
                        results@.map_values(|result: CleanResult| result@),
                    ),
                }),
            table_wf(final(self)@),
    {
        proof {
            use_type_invariant(&*self);
        }
        let ghost before = self@;
        let ghost outcomes = results@.map_values(|result: CleanResult| result@);
        let mut rows: Vec<FileRow> = Vec::new();
        std::mem::swap(&mut rows, &mut self.rows);
        assert(rows@.map_values(|row: FileRow| row@) =~= before.rows);
        let mut i: usize = 0;
        while i < results.len()
            invariant
                i <= results.len(),
                outcomes == results@.map_values(|result: CleanResult| result@),
                table_wf(before),
                rows@.len() == before.rows.len(),
                forall|k: int|
                    0 <= k < rows@.len() ==> #[trigger] rows@[k]@ == (RowView {
                        id: before.rows[k].id,
                        name: before.rows[k].name,
                        state: settled_state(
                            before.rows[k].state,
                            before.rows[k].id,
                            outcomes.take(i as int),
                        ),
                    }),
            decreases results.len() - i,
        {
            let id = results[i].id;
            let mut j: usize = 0;
            while j < rows.len() && rows[j].id != id
                invariant
                    j <= rows@.len(),
                    forall|k: int| 0 <= k < j ==> #[trigger] rows@[k].id != id,
                decreases rows@.len() - j,
            {
                j = j + 1;
            }
            let ghost prev = rows@;
            let ghost step = outcomes.take(i + 1);
            proof {
                assert(step.drop_last() =~= outcomes.take(i as int));
                assert(step.last() == results@[i as int]@);
                assert forall|k: int| 0 <= k < prev.len() && k != j implies #[trigger] prev[k].id
                    != id by {
                    assert(prev[k]@.id == before.rows[k].id);
                    if k > j && j < prev.len() {
                        assert(prev[j as int]@.id == before.rows[j as int].id);
                        assert(before.rows[j as int].id < before.rows[k].id);
                    }
                }
            }
            if j < rows.len() {
                let state = match &results[i].result {
                    Ok((before_count, after_count)) => CleanState::Done {
                        before: *before_count,
                        after: *after_count,
                    },
                    Err(reason) => CleanState::Failed(reason.clone()),
                };
                assert(state@ == outcome_state(results@[i as int].result));
                let row = FileRow { id, name: rows[j].name.clone(), state };
                rows.set(j, row);
                assert(prev[j as int]@.id == before.rows[j as int].id);
            }
            assert forall|k: int| 0 <= k < rows@.len() implies #[trigger] rows@[k]@ == (RowView {
                id: before.rows[k].id,
                name: before.rows[k].name,
                state: settled_state(before.rows[k].state, before.rows[k].id, step),
            }) by {
                assert(prev[k]@.id == before.rows[k].id);
                if k != j {
                    assert(prev[k].id != id);
                    assert(rows@[k] == prev[k]);
                }
            }
            i = i + 1;
        }
        assert(outcomes.take(i as int) =~= outcomes);
        let ghost table = TableView { rows: rows@.map_values(|row: FileRow| row@), next_id: before.next_id };
        assert(table_wf(table));
        self.rows = rows;
        assert(self@.rows =~= table.rows);
    }

    /// Whether some file is still being cleaned, so that the window must be redrawn soon.
    pub fn needs_repaint(&self) -> (busy: bool)
        ensures
            busy == exists|k: int|
                0 <= k < self@.rows.len() && #[trigger] self@.rows[k].state == StateView::Cleaning,
    {
        let mut k: usize = 0;
        while k < self.rows.len()
            invariant
                k <= self.rows@.len(),
                forall|m: int| 0 <= m < k ==> #[trigger] self@.rows[m].state != StateView::Cleaning,
            decreases self.rows@.len() - k,
        {
            if let CleanState::Cleaning = self.rows[k].state {
                assert(self@.rows[k as int].state == StateView::Cleaning);
                return true;
            }
            k = k + 1;
        }
        false
    }

    /// Whether the window shows the drop zone rather than the table: while files hover
    /// over it, and while there is no row.
    pub fn shows_drop_zone(&self, is_hovering: bool) -> (drop_zone: bool)
        ensures
            drop_zone == (self@.rows.len() == 0 || is_hovering),
    {
        self.rows.len() == 0 || is_hovering
    }

    /// The rows, top to bottom.
    pub fn rows(&self) -> (rows: &Vec<FileRow>)
        ensures
            rows@.map_values(|row: FileRow| row@) == self@.rows,
    {
        &self.rows
    }

    /// The id that the next dropped file will get.
    pub fn next_id(&self) -> (id: u64)
        ensures
            id == self@.next_id,
    {
        self.next_id
    }
}

} // verus!
