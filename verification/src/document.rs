//! The documents that are read into rows or handed on as they are.

use crate::kind::{lookup, table_get};
use vstd::prelude::*;

verus! {

/// How a document is read.
#[derive(Clone, Copy, Debug, PartialEq, Eq, Structural)]
pub enum DocumentFormat {
    /// Delimited text, read as one sheet of rows.
    Csv,
    /// A workbook, read sheet by sheet.
    Excel,
    /// A word document, handed on by its path.
    Docx,
}

/// The names by which the preview surface asks for a document, each with the
/// way the document is read.
pub open spec fn document_table() -> Seq<(&'static str, DocumentFormat)> {
    seq![
        ("csv", DocumentFormat::Csv),
        ("xlsx", DocumentFormat::Excel),
        ("xls", DocumentFormat::Excel),
        ("xlsm", DocumentFormat::Excel),
        ("xlsb", DocumentFormat::Excel),
        ("xla", DocumentFormat::Excel),
        ("xlam", DocumentFormat::Excel),
        ("ods", DocumentFormat::Excel),
        ("docx", DocumentFormat::Docx),
    ]
}

/// How the document that the preview surface asks for by the name `mode` is
/// read; there is no way for a name that the table does not list.
pub fn document_format(mode: &str) -> (format: Option<DocumentFormat>)
    ensures
        format == table_get(document_table(), mode@),
{
    let table: Vec<(&'static str, DocumentFormat)> = vec![
        ("csv", DocumentFormat::Csv),
        ("xlsx", DocumentFormat::Excel),
        ("xls", DocumentFormat::Excel),
        ("xlsm", DocumentFormat::Excel),
        ("xlsb", DocumentFormat::Excel),
        ("xla", DocumentFormat::Excel),
        ("xlam", DocumentFormat::Excel),
        ("ods", DocumentFormat::Excel),
        ("docx", DocumentFormat::Docx),
    ];
    lookup(&table, mode)
}

} // verus!
