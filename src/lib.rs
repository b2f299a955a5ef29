//! Streaming, cell-by-cell validation of tab-separated files.
//!
//! The library holds the rules: the spreadsheet-style addressing of cells,
//! the failure model, the ordered cell-check policy and the per-record step
//! of the streaming driver. Reading records from a byte stream is left to
//! the caller, which feeds each record to [`check::CellStream`].

pub mod text;
pub mod location;
pub mod checkfailure;
pub mod check;
pub mod settings;
