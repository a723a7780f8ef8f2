//! Header resolver: finds the one column whose type tag and series tag meet a
//! query.
//!
//! A column matches where its type tag is the wanted tag, letter for letter,
//! and its series tag holds the queried text, case ignored. Case is ignored
//! by comparing lowercase forms; [`unique_match`] works on tags and a query
//! that are in lowercase already, [`find_col`] brings them into that form.

use vstd::prelude::*;
use vstd::string::*;
use csv::StringRecord;
use crate::record::{cell, cell_or_empty, cells_of, field_count, record_fields};
use crate::text::{contains, contains_text, lowercase};

verus! {

/// Why the matching columns do not name one column.
#[derive(Debug, PartialEq, Eq)]
pub enum MatchError {
    /// No column matches.
    NotFound,
    /// Several columns match; `indices` lists them all, in ascending order.
    Ambiguous { indices: Vec<usize> },
}

/// What a [`MatchError`] stands for.
pub enum MatchFailure {
    NotFound,
    Ambiguous { indices: Seq<int> },
}

impl View for MatchError {
    type V = MatchFailure;

    open spec fn view(&self) -> MatchFailure {
        match *self {
            MatchError::NotFound => MatchFailure::NotFound,
            MatchError::Ambiguous { indices } => MatchFailure::Ambiguous {
                indices: indices@.map_values(|i: usize| i as int),
            },
        }
    }
}

/// Why a column could not be resolved: the type tag and the series text that
/// were asked for, and what the search for them met.
#[derive(Debug, PartialEq, Eq)]
pub struct ResolveError {
    pub wanted_type: String,
    pub series_query: String,
    pub cause: MatchError,
}

/// What a [`ResolveError`] stands for.
pub struct ResolveFailure {
    pub wanted_type: Seq<char>,
    pub series_query: Seq<char>,
    pub cause: MatchFailure,
}

impl View for ResolveError {
    type V = ResolveFailure;

    open spec fn view(&self) -> ResolveFailure {
        ResolveFailure {
            wanted_type: self.wanted_type@,
            series_query: self.series_query@,
            cause: self.cause@,
        }
    }
}

/// The number of columns that the two header rows span together.
pub open spec fn width(types: Seq<Seq<char>>, series: Seq<Seq<char>>) -> nat {
    if types.len() >= series.len() {
        types.len()
    } else {
        series.len()
    }
}

/// Whether column `i` has exactly the wanted type tag and a series tag that
/// holds the query. The series tags and the query are in lowercase. A cell
/// that a row lacks counts as empty.
pub open spec fn column_matches(
    types: Seq<Seq<char>>,
    series: Seq<Seq<char>>,
    query: Seq<char>,
    wanted: Seq<char>,
    i: int,
) -> bool {
    &&& 0 <= i < width(types, series)
    &&& cell(types, i) == wanted
    &&& contains_text(cell(series, i), query)
}

/// The columns `0, 1, .., n - 1`, in that order.
pub open spec fn ascending(n: nat) -> Seq<int> {
    Seq::new(n, |i: int| i)
}

/// The matching columns among those that `order` lists, in the order in which
/// it lists them.
pub open spec fn matches_in_order(
    order: Seq<int>,
    types: Seq<Seq<char>>,
    series: Seq<Seq<char>>,
    query: Seq<char>,
    wanted: Seq<char>,
) -> Seq<int>
    decreases order.len(),
{
    if order.len() == 0 {
        Seq::empty()
    } else if column_matches(types, series, query, wanted, order.last()) {
        matches_in_order(order.drop_last(), types, series, query, wanted).push(order.last())
    } else {
        matches_in_order(order.drop_last(), types, series, query, wanted)
    }
}

/// All matching columns, in ascending order.
pub open spec fn matching_columns(
    types: Seq<Seq<char>>,
    series: Seq<Seq<char>>,
    query: Seq<char>,
    wanted: Seq<char>,
) -> Seq<int> {
    matches_in_order(ascending(width(types, series)), types, series, query, wanted)
}

/// The one matching column, or else the failure, classified by the number of
/// matching columns. The series tags and the query are in lowercase.
pub open spec fn pick(
    types: Seq<Seq<char>>,
    series: Seq<Seq<char>>,
    query: Seq<char>,
    wanted: Seq<char>,
) -> Result<int, MatchFailure> {
    let found = matching_columns(types, series, query, wanted);
    if found.len() == 0 {
        Err(MatchFailure::NotFound)
    } else if found.len() == 1 {
        Ok(found[0])
    } else {
        Err(MatchFailure::Ambiguous { indices: found })
    }
}

/// The cells of a row, each in lowercase.
pub open spec fn folded(cells: Seq<Seq<char>>) -> Seq<Seq<char>> {
    cells.map_values(|text: Seq<char>| lowercase(text))
}

/// Whether column `i` of header rows as they are written matches a query as
/// it is written: whether it does so once series tags and query are in
/// lowercase.
pub open spec fn header_matches(
    types: Seq<Seq<char>>,
    series: Seq<Seq<char>>,
    query: Seq<char>,
    wanted: Seq<char>,
    i: int,
) -> bool {
    column_matches(types, folded(series), lowercase(query), wanted, i)
}

/// The outcome of resolution for header rows and a query as the user writes
/// them: that of [`pick`] on their lowercase forms, a failure with the names
/// of what was asked for.
pub open spec fn resolve(
    types: Seq<Seq<char>>,
    series: Seq<Seq<char>>,
    query: Seq<char>,
    wanted: Seq<char>,
) -> Result<int, ResolveFailure> {
    match pick(types, folded(series), lowercase(query), wanted) {
        Ok(i) => Ok(i),
        Err(cause) => Err(ResolveFailure { wanted_type: wanted, series_query: query, cause }),
    }
}

/// The text at position `i` of `cells`, with a missing cell read as the empty
/// text.
fn text_or_empty<'a>(cells: &'a Vec<String>, i: usize) -> (text: &'a str)
    ensures
        text@ == cell(cells.deep_view(), i as int),
{
    if i < cells.len() {
        cells[i].as_str()
    } else {
        let empty: &'a str = "";
        proof {
            reveal_strlit("");
        }
        empty
    }
}

/// Finds the one column whose type tag is `wanted_type` and whose series tag
/// holds `query`, for series tags and a query that are in lowercase.
///
/// The columns are scanned up to the longer of the two rows; a cell that the
/// shorter row lacks counts as empty.
pub fn unique_match(
    types: &Vec<String>,
    series: &Vec<String>,
    query: &str,
    wanted_type: &str,
) -> (r: Result<usize, MatchError>)
    ensures
        match r {
            Ok(i) => pick(types.deep_view(), series.deep_view(), query@, wanted_type@) == Ok::<
                int,
                MatchFailure,
            >(i as int),
            Err(e) => pick(types.deep_view(), series.deep_view(), query@, wanted_type@) == Err::<
                int,
                MatchFailure,
            >(e@),
        },
{
    let columns = if types.len() >= series.len() {
        types.len()
    } else {
        series.len()
    };
    let mut matches: Vec<usize> = Vec::new();
    let mut i: usize = 0;
    while i < columns
        invariant
            i <= columns,
            columns == width(types.deep_view(), series.deep_view()),
            matches@.map_values(|k: usize| k as int) == matches_in_order(
                ascending(i as nat),
                types.deep_view(),
                series.deep_view(),
                query@,
                wanted_type@,
            ),
        decreases columns - i,
    {
        assert(ascending((i + 1) as nat).drop_last() == ascending(i as nat));
        let type_tag = text_or_empty(types, i);
        let series_tag = text_or_empty(series, i);
        if type_tag.eq(wanted_type) && contains(series_tag, query) {
            assert(matches@.push(i).map_values(|k: usize| k as int) == matches@.map_values(
                |k: usize| k as int,
            ).push(i as int));
            matches.push(i);
        }
        i += 1;
    }
    if matches.len() == 0 {
        Err(MatchError::NotFound)
    } else if matches.len() == 1 {
        Ok(matches[0])
    } else {
        Err(MatchError::Ambiguous { indices: matches })
    }
}

/// The cells of a row, each brought into lowercase.
fn folded_cells(row: &StringRecord) -> (cells: Vec<String>)
    ensures
        cells.deep_view() == folded(record_fields(*row)),
{
    let n = field_count(row);
    let mut cells: Vec<String> = Vec::new();
    let mut i: usize = 0;
    while i < n
        invariant
            i <= n,
            n == record_fields(*row).len(),
            cells.len() == i,
            forall|k: int| 0 <= k < i ==> (#[trigger] cells@[k])@ == lowercase(record_fields(*row)[k]),
        decreases n - i,
    {
        cells.push(cell_or_empty(row, i).to_lowercase());
        i += 1;
    }
    assert(cells.deep_view() =~= folded(record_fields(*row)));
    cells
}

/// Finds the column whose type tag in `types_row` equals `wanted_type` and
/// whose series tag in `series_row` holds `series_query`, case ignored.
pub fn find_col(
    types_row: &StringRecord,
    series_row: &StringRecord,
    series_query: &str,
    wanted_type: &str,
) -> (r: Result<usize, ResolveError>)
    ensures
        match r {
            Ok(i) => resolve(
                record_fields(*types_row),
                record_fields(*series_row),
                series_query@,
                wanted_type@,
            ) == Ok::<int, ResolveFailure>(i as int),
            Err(e) => resolve(
                record_fields(*types_row),
                record_fields(*series_row),
                series_query@,
                wanted_type@,
            ) == Err::<int, ResolveFailure>(e@),
        },
{
    let types = cells_of(types_row);
    let series = folded_cells(series_row);
    let query = series_query.to_lowercase();
    match unique_match(&types, &series, query.as_str(), wanted_type) {
        Ok(column) => Ok(column),
        Err(cause) => Err(
            ResolveError {
                wanted_type: wanted_type.to_owned(),
                series_query: series_query.to_owned(),
                cause,
            },
        ),
    }
}

/// The column of the wavelength, in every table.
pub const WAVELENGTH_COLUMN: usize = 0;

/// The column of the event count, in every table.
pub const EVENT_COUNT_COLUMN: usize = 1;

/// The two columns that the header rows decide, resolved once for a table.
#[derive(Clone, Copy, Debug, PartialEq, Eq)]
pub struct Columns {
    /// The column of the temperature.
    pub temperature: usize,
    /// The column of the selected measurement.
    pub measurement: usize,
}

/// The type tag of the temperature column.
pub open spec fn temperature_tag() -> Seq<char> {
    seq!['T']
}

/// The outcome of resolving both columns for one series: the temperature
/// column first, then the column of the measurement kind. The first failure
/// is the outcome.
pub open spec fn resolve_pair(
    types: Seq<Seq<char>>,
    series: Seq<Seq<char>>,
    query: Seq<char>,
    kind: Seq<char>,
) -> Result<(int, int), ResolveFailure> {
    match resolve(types, series, query, temperature_tag()) {
        Err(failure) => Err(failure),
        Ok(temperature) => match resolve(types, series, query, kind) {
            Err(failure) => Err(failure),
            Ok(measurement) => Ok((temperature, measurement)),
        },
    }
}

/// Resolves the temperature column and the column of the measurement kind
/// `r_kind`, both for the series that `series_query` names.
pub fn resolve_columns(
    types_row: &StringRecord,
    series_row: &StringRecord,
    series_query: &str,
    r_kind: &str,
) -> (r: Result<Columns, ResolveError>)
    ensures
        match r {
            Ok(columns) => resolve_pair(
                record_fields(*types_row),
                record_fields(*series_row),
                series_query@,
                r_kind@,
            ) == Ok::<(int, int), ResolveFailure>(
                (columns.temperature as int, columns.measurement as int),
            ),
            Err(e) => resolve_pair(
                record_fields(*types_row),
                record_fields(*series_row),
                series_query@,
                r_kind@,
            ) == Err::<(int, int), ResolveFailure>(e@),
        },
{
    proof {
        reveal_strlit("T");
        assert("T"@ =~= temperature_tag());
    }
    let temperature = match find_col(types_row, series_row, series_query, "T") {
        Ok(column) => column,
        Err(e) => { return Err(e); },
    };
    let measurement = match find_col(types_row, series_row, series_query, r_kind) {
        Ok(column) => column,
        Err(e) => { return Err(e); },
    };
    Ok(Columns { temperature, measurement })
}

} // verus!
