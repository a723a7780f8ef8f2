//! Row selection: the four cells of a data row that are written out.

use vstd::prelude::*;
use vstd::string::*;
use csv::StringRecord;
use crate::record::{cell, cell_or_empty, field_count, record_fields};
use crate::resolve::{Columns, EVENT_COUNT_COLUMN, WAVELENGTH_COLUMN};

verus! {

/// The number of cells below which a row is no data row.
pub const MIN_DATA_CELLS: usize = 2;

/// The number of fractional digits of an event count, the first field of an
/// output row.
pub const EVENT_COUNT_DIGITS: usize = 6;

/// The number of fractional digits of a wavelength, the second field of an
/// output row.
pub const WAVELENGTH_DIGITS: usize = 3;

/// The number of fractional digits of a temperature, the third field of an
/// output row.
pub const TEMPERATURE_DIGITS: usize = 8;

/// The number of fractional digits of a measurement, the fourth field of an
/// output row.
pub const MEASUREMENT_DIGITS: usize = 8;

/// The cells of one data row that are written out, as the row holds them. A
/// cell that the row lacks is empty.
#[derive(Debug, PartialEq, Eq)]
pub struct RowCells {
    pub wavelength: String,
    pub event_count: String,
    pub temperature: String,
    pub measurement: String,
}

/// What a [`RowCells`] stands for.
pub struct RowTexts {
    pub wavelength: Seq<char>,
    pub event_count: Seq<char>,
    pub temperature: Seq<char>,
    pub measurement: Seq<char>,
}

impl View for RowCells {
    type V = RowTexts;

    open spec fn view(&self) -> RowTexts {
        RowTexts {
            wavelength: self.wavelength@,
            event_count: self.event_count@,
            temperature: self.temperature@,
            measurement: self.measurement@,
        }
    }
}

/// Whether a row with these cells is a data row. A shorter row is a blank or
/// broken line and is passed over.
pub open spec fn is_data_row(cells: Seq<Seq<char>>) -> bool {
    cells.len() >= MIN_DATA_CELLS
}

/// The four cells of a row that are written out: the first two, and those at
/// the resolved columns.
pub open spec fn selected(cells: Seq<Seq<char>>, columns: Columns) -> RowTexts {
    RowTexts {
        wavelength: cell(cells, WAVELENGTH_COLUMN as int),
        event_count: cell(cells, EVENT_COUNT_COLUMN as int),
        temperature: cell(cells, columns.temperature as int),
        measurement: cell(cells, columns.measurement as int),
    }
}

/// Picks the cells to write out of a row, or nothing where the row is no
/// data row.
pub fn select_cells(row: &StringRecord, columns: &Columns) -> (r: Option<RowCells>)
    ensures
        r is Some <==> is_data_row(record_fields(*row)),
        r matches Some(cells) ==> cells@ == selected(record_fields(*row), *columns),
{
    if field_count(row) < MIN_DATA_CELLS {
        return None;
    }
    Some(
        RowCells {
            wavelength: cell_or_empty(row, WAVELENGTH_COLUMN).to_owned(),
            event_count: cell_or_empty(row, EVENT_COUNT_COLUMN).to_owned(),
            temperature: cell_or_empty(row, columns.temperature).to_owned(),
            measurement: cell_or_empty(row, columns.measurement).to_owned(),
        },
    )
}

} // verus!
