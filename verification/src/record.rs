//! Rows of a delimited table, as the `csv` crate holds them.

use vstd::prelude::*;
use vstd::string::*;
use csv::StringRecord;

verus! {

/// `csv::StringRecord`, one row of a table. Its bytes are private to the `csv`
/// crate; contracts speak of its cells through [`record_fields`].
#[verifier::external_type_specification]
#[verifier::external_body]
pub struct ExStringRecord(csv::StringRecord);

/// The cells of a row, in order, each as its sequence of characters.
pub uninterp spec fn record_fields(row: StringRecord) -> Seq<Seq<char>>;

/// The cell at position `i` of `cells`, or the empty text where the row has
/// no such cell.
pub open spec fn cell(cells: Seq<Seq<char>>, i: int) -> Seq<char> {
    if 0 <= i < cells.len() {
        cells[i]
    } else {
        Seq::empty()
    }
}

/// Calls `csv::StringRecord::len`, which returns the number of fields of the
/// record.
#[verifier::external_body]
pub(crate) fn field_count(row: &StringRecord) -> (n: usize)
    ensures
        n == record_fields(*row).len(),
{
    row.len()
}

/// Calls `csv::StringRecord::get`, which returns the field at index `i`, or
/// `None` if the record has no field at that index.
#[verifier::external_body]
pub(crate) fn field<'a>(row: &'a StringRecord, i: usize) -> (f: Option<&'a str>)
    ensures
        i < record_fields(*row).len() ==> f is Some && f->0@ == record_fields(*row)[i as int],
        i >= record_fields(*row).len() ==> f is None,
{
    row.get(i)
}

/// The cell at position `i`, with a missing cell read as the empty text.
pub fn cell_or_empty<'a>(row: &'a StringRecord, i: usize) -> (text: &'a str)
    ensures
        text@ == cell(record_fields(*row), i as int),
{
    match field(row, i) {
        Some(text) => text,
        None => {
            let empty: &'a str = "";
            proof {
                reveal_strlit("");
            }
            empty
        },
    }
}

/// The cells of a row, in order.
pub fn cells_of(row: &StringRecord) -> (cells: Vec<String>)
    ensures
        cells.deep_view() == record_fields(*row),
{
    let n = field_count(row);
    let mut cells: Vec<String> = Vec::new();
    let mut i: usize = 0;
    while i < n
        invariant
            i <= n,
            n == record_fields(*row).len(),
            cells.len() == i,
            forall|k: int| 0 <= k < i ==> (#[trigger] cells@[k])@ == record_fields(*row)[k],
        decreases n - i,
    {
        cells.push(cell_or_empty(row, i).to_owned());
        i += 1;
    }
    assert(cells.deep_view() =~= record_fields(*row));
    cells
}

} // verus!
