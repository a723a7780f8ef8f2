//! The course of one run over a table, row by row.
//!
//! A table starts with three header rows: type tags, a descriptive row that
//! is not read, and series tags. The caller reads the rows and hands them to
//! [`step`] one at a time; each step says what to do with the row and gives
//! the state to continue from. A step that ends the run gives no state.

use vstd::prelude::*;
use vstd::string::*;
use csv::StringRecord;
use crate::record::record_fields;
use crate::resolve::{resolve_columns, resolve_pair, Columns, ResolveError};
use crate::row::{is_data_row, select_cells, selected, RowCells};

verus! {

/// One of the three header rows.
#[derive(Clone, Copy, Debug, PartialEq, Eq)]
pub enum HeaderRow {
    /// The first row: a type tag for each column.
    Types,
    /// The second row: descriptive, not read.
    Description,
    /// The third row: a series tag for each column.
    Series,
}

/// Why a run stops before the end of its table.
#[derive(Debug, PartialEq, Eq)]
pub enum RunError {
    /// The table ends before this header row.
    MissingHeader(HeaderRow),
    /// A column could not be resolved from the header rows.
    Column(ResolveError),
}

/// What the user asks for.
#[derive(Debug, PartialEq, Eq)]
pub struct Query {
    /// A part of the series tag, in any case.
    pub series: String,
    /// The type tag of the measurement column.
    pub r_kind: String,
}

/// Where a run stands between two rows.
#[derive(Debug, PartialEq, Eq)]
pub enum State {
    /// Nothing read yet.
    AwaitTypes,
    /// The row of type tags read.
    AwaitDescription { types: StringRecord },
    /// The row of type tags and the descriptive row read.
    AwaitSeries { types: StringRecord },
    /// The header read and the columns resolved: data rows follow.
    Data { columns: Columns },
}

/// What the caller has read.
#[derive(Debug, PartialEq, Eq)]
pub enum Event {
    /// The next row of the table.
    Row(StringRecord),
    /// The end of the table.
    End,
}

/// What the caller is to do next.
#[derive(Debug, PartialEq, Eq)]
pub enum Step {
    /// A header row was taken: read on.
    Header { next: State },
    /// The last header row was taken and the columns are resolved: open the
    /// output and read on.
    Resolved { next: State, columns: Columns },
    /// The row is no data row: write nothing and read on.
    Skipped { next: State },
    /// Convert these cells, write them as one row, and read on.
    Cells { next: State, cells: RowCells },
    /// The table is at its end and all its rows are written.
    Finished,
    /// The run fails, and nothing more is read or written.
    Failed(RunError),
}

/// The state in which a run starts.
pub fn start() -> (state: State)
    ensures
        state == State::AwaitTypes,
{
    State::AwaitTypes
}

impl State {
    /// The header row that is read next, if the header is not yet complete.
    pub open spec fn awaited(self) -> Option<HeaderRow> {
        match self {
            State::AwaitTypes => Some(HeaderRow::Types),
            State::AwaitDescription { .. } => Some(HeaderRow::Description),
            State::AwaitSeries { .. } => Some(HeaderRow::Series),
            State::Data { .. } => None,
        }
    }

    /// The header row that is read next, if the header is not yet complete.
    pub fn awaited_header(&self) -> (row: Option<HeaderRow>)
        ensures
            row == self.awaited(),
    {
        match self {
            State::AwaitTypes => Some(HeaderRow::Types),
            State::AwaitDescription { .. } => Some(HeaderRow::Description),
            State::AwaitSeries { .. } => Some(HeaderRow::Series),
            State::Data { .. } => None,
        }
    }
}

/// Whether `result` is the step that follows `event` in `state`.
///
/// The end of the table fails the run while a header row is awaited, and
/// finishes it after that. A row is taken as the awaited header row; with the
/// third, both columns are resolved, and the run fails if one cannot be.
/// After the header, a row that is no data row is skipped, and of a data row
/// the four cells at the resolved columns are handed out. The columns stay as
/// resolved.
pub open spec fn follows(query: Query, state: State, event: Event, result: Step) -> bool {
    match event {
        Event::End => match state.awaited() {
            Some(row) => result == Step::Failed(RunError::MissingHeader(row)),
            None => result == Step::Finished,
        },
        Event::Row(row) => match state {
            State::AwaitTypes => result == (Step::Header { next: State::AwaitDescription { types: row } }),
            State::AwaitDescription { types } => result == (Step::Header {
                next: State::AwaitSeries { types },
            }),
            State::AwaitSeries { types } => match resolve_pair(
                record_fields(types),
                record_fields(row),
                query.series@,
                query.r_kind@,
            ) {
                Ok((temperature, measurement)) => {
                    &&& result matches Step::Resolved { next, columns }
                    &&& columns.temperature == temperature
                    &&& columns.measurement == measurement
                    &&& next == State::Data { columns }
                },
                Err(failure) => {
                    &&& result matches Step::Failed(RunError::Column(e))
                    &&& e@ == failure
                },
            },
            State::Data { columns } => if is_data_row(record_fields(row)) {
                &&& result matches Step::Cells { next, cells }
                &&& next == state
                &&& cells@ == selected(record_fields(row), columns)
            } else {
                result == (Step::Skipped { next: state })
            },
        },
    }
}

/// Takes one event of a run and says what follows.
pub fn step(query: &Query, state: State, event: Event) -> (result: Step)
    ensures
        follows(*query, state, event, result),
{
    match event {
        Event::End => match state.awaited_header() {
            Some(row) => Step::Failed(RunError::MissingHeader(row)),
            None => Step::Finished,
        },
        Event::Row(row) => match state {
            State::AwaitTypes => Step::Header { next: State::AwaitDescription { types: row } },
            State::AwaitDescription { types } => Step::Header { next: State::AwaitSeries { types } },
            State::AwaitSeries { types } => {
                match resolve_columns(&types, &row, query.series.as_str(), query.r_kind.as_str()) {
                    Ok(columns) => Step::Resolved { next: State::Data { columns }, columns },
                    Err(e) => Step::Failed(RunError::Column(e)),
                }
            },
            State::Data { columns } => match select_cells(&row, &columns) {
                Some(cells) => Step::Cells { next: State::Data { columns }, cells },
                None => Step::Skipped { next: State::Data { columns } },
            },
        },
    }
}

/// After the header, a row with fewer than two cells is skipped: it gives no
/// cells to write and no failure, and the run goes on from the same state.
pub proof fn lemma_short_row_is_skipped(
    query: Query,
    columns: Columns,
    row: StringRecord,
    result: Step,
)
    requires
        record_fields(row).len() < 2,
        follows(query, State::Data { columns }, Event::Row(row), result),
    ensures
        result == (Step::Skipped { next: State::Data { columns } }),
{
}

/// The columns are resolved once: after the header no step fails, and each
/// step that goes on keeps the columns as they are.
pub proof fn lemma_columns_stay_as_resolved(
    query: Query,
    columns: Columns,
    event: Event,
    result: Step,
)
    requires
        follows(query, State::Data { columns }, event, result),
    ensures
        match result {
            Step::Skipped { next } => next == State::Data { columns },
            Step::Cells { next, .. } => next == State::Data { columns },
            Step::Finished => event == Event::End,
            Step::Header { .. } => false,
            Step::Resolved { .. } => false,
            Step::Failed(_) => false,
        },
{
}

/// A run fails in the header or not at all: a table that ends before its
/// third header row fails for the row it lacks, and the third header row
/// fails the run exactly when one of the two columns cannot be resolved.
pub proof fn lemma_failures_come_from_the_header(
    query: Query,
    state: State,
    event: Event,
    result: Step,
)
    requires
        follows(query, state, event, result),
    ensures
        result is Failed <==> match (state, event) {
            (State::Data { .. }, _) => false,
            (_, Event::End) => true,
            (State::AwaitSeries { types }, Event::Row(row)) => resolve_pair(
                record_fields(types),
                record_fields(row),
                query.series@,
                query.r_kind@,
            ) is Err,
            (_, Event::Row(_)) => false,
        },
{
}

} // verus!
