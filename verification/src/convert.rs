//! From a notebook document, or from its JSON text, to Markdown.

use crate::accessor::{notebook_of, read_notebook};
use crate::json::{error_column, error_line, json_of, parse_document, parsed_json, Json};
use crate::render::{notebook_markdown, render_notebook};
use serde_json::Value;
use vstd::prelude::*;

verus! {

/// Why a text could not be converted: the JSON parser did not accept it.
#[derive(Clone, Copy, Debug, PartialEq, Eq)]
pub struct ParseError {
    /// The line at which the JSON parser stopped, counted from one.
    pub line: usize,
    /// The column at which it stopped.
    pub column: usize,
}

/// The Markdown of a notebook document.
pub open spec fn document_markdown(notebook: Json) -> Seq<char> {
    notebook_markdown(notebook_of(notebook))
}

/// The Markdown of a notebook given as JSON text; `None` where the text does
/// not parse.
pub open spec fn source_markdown(content: Seq<char>) -> Option<Seq<char>> {
    match parsed_json(content) {
        Some(notebook) => Some(document_markdown(notebook)),
        None => None,
    }
}

/// Converts a parsed notebook document to Markdown. Every document converts:
/// a field that is missing, or of an unexpected kind, renders as nothing or
/// as its default.
pub fn convert_notebook_to_markdown(notebook: &Value) -> (markdown: String)
    ensures
        markdown@ == document_markdown(json_of(*notebook)),
{
    let plain = read_notebook(notebook);
    render_notebook(&plain)
}

/// Where the JSON parser stopped: the line and the column of its report.
fn parse_error(report: &serde_json::Error) -> (r: ParseError)
    ensures
        r.line == error_line(*report),
        r.column == error_column(*report),
{
    ParseError { line: report.line(), column: report.column() }
}

/// Converts the JSON text of a notebook to Markdown. Fails exactly when the
/// text does not parse; whatever parses, converts.
pub fn convert_notebook_source(content: &str) -> (r: Result<String, ParseError>)
    ensures
        match r {
            Ok(markdown) => source_markdown(content@) == Some(markdown@),
            Err(_) => source_markdown(content@) is None,
        },
{
    match parse_document(content) {
        Ok(notebook) => Ok(convert_notebook_to_markdown(&notebook)),
        Err(report) => Err(parse_error(&report)),
    }
}

} // verus!
