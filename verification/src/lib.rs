//! Header-driven column resolution and row selection for semicolon-delimited
//! measurement tables with a three-row header.
//!
//! The crate locates the temperature column and one measurement column by the
//! tags of the header rows, picks the four cells of interest out of each data
//! row and prepares their text for numeric conversion. Reading and writing of
//! files, and the conversion of text to binary floating point, are left to the
//! caller.

pub mod numeric;
pub mod record;
pub mod resolve;
pub mod resolve_laws;
pub mod row;
pub mod text;
pub mod transcode;
