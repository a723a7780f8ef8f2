//! Numeric cells: the text of a cell made ready for conversion to a number.
//!
//! A cell may write its decimal separator as a comma or as a period and may
//! be padded with white space. The conversion of the prepared text to binary
//! floating point is the caller's.

use vstd::prelude::*;
use vstd::string::*;
use crate::text::{
    is_blank, lemma_blank_trims_to_nothing, lemma_replace_each_by_one,
    lemma_trim_after_replace, lemma_trimmed_is_stable, replace_char, replace_one_for_one,
    trimmed,
};

verus! {

/// The text of a numeric cell.
#[derive(Debug, PartialEq, Eq)]
pub struct NumericText {
    /// The cell without the white space around it.
    pub raw: String,
    /// `raw` with each comma turned into a period: the text to convert.
    pub decimal: String,
}

/// Why a cell holds no number.
#[derive(Debug, PartialEq, Eq)]
pub enum NumericError {
    /// The cell is empty or holds white space only.
    Empty,
    /// The cell holds text that is no number; `text` is the cell without the
    /// white space around it.
    Malformed { text: String },
}

/// What a [`NumericError`] stands for.
pub enum NumericFailure {
    Empty,
    Malformed { text: Seq<char> },
}

impl View for NumericError {
    type V = NumericFailure;

    open spec fn view(&self) -> NumericFailure {
        match *self {
            NumericError::Empty => NumericFailure::Empty,
            NumericError::Malformed { text } => NumericFailure::Malformed { text: text@ },
        }
    }
}

/// `s` with each comma turned into a period.
pub open spec fn decimal_points(s: Seq<char>) -> Seq<char> {
    replace_one_for_one(s, ',', '.')
}

/// The text to convert for the cell `s`: the cell without the white space
/// around it, with periods for commas.
pub open spec fn decimal_text(s: Seq<char>) -> Seq<char> {
    decimal_points(trimmed(s))
}

/// Prepares the text of a numeric cell: removes the white space around it and
/// turns each comma into a period. A blank cell is no number.
pub fn numeric_text(cell: &str) -> (r: Result<NumericText, NumericError>)
    ensures
        match r {
            Ok(text) => {
                &&& !is_blank(cell@)
                &&& text.raw@ == trimmed(cell@)
                &&& text.decimal@ == decimal_text(cell@)
            },
            Err(e) => is_blank(cell@) && e@ == NumericFailure::Empty,
        },
{
    let raw = cell.trim();
    proof {
        lemma_blank_trims_to_nothing(cell@);
    }
    if raw.is_empty() {
        return Err(NumericError::Empty);
    }
    let decimal = replace_char(raw, ',', ".");
    proof {
        reveal_strlit(".");
        assert("."@ =~= seq!['.']);
        lemma_replace_each_by_one(raw@, ',', '.');
    }
    Ok(NumericText { raw: raw.to_owned(), decimal })
}

impl NumericText {
    /// The error to report where the conversion of `decimal` fails: it names
    /// the cell's text as it stood, without the white space around it.
    pub fn malformed(&self) -> (e: NumericError)
        ensures
            e@ == (NumericFailure::Malformed { text: self.raw@ }),
    {
        NumericError::Malformed { text: self.raw.clone() }
    }
}

/// A cell yields the same text to convert whether it writes its decimal
/// separator as a comma or as a period.
pub proof fn lemma_comma_and_period_agree(cell: Seq<char>)
    ensures
        decimal_text(decimal_points(cell)) == decimal_text(cell),
        is_blank(decimal_points(cell)) <==> is_blank(cell),
{
    lemma_trim_after_replace(cell, ',', '.');
    let t = trimmed(cell);
    assert(decimal_points(decimal_points(t)) =~= decimal_points(t));
    lemma_blank_trims_to_nothing(cell);
    lemma_blank_trims_to_nothing(decimal_points(cell));
}

/// Preparing a text a second time changes nothing.
pub proof fn lemma_decimal_text_is_stable(cell: Seq<char>)
    ensures
        decimal_text(decimal_text(cell)) == decimal_text(cell),
{
    lemma_trimmed_is_stable(cell);
    lemma_trim_after_replace(trimmed(cell), ',', '.');
    let t = trimmed(cell);
    assert(decimal_points(decimal_points(t)) =~= decimal_points(t));
}

} // verus!
