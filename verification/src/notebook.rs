//! The notebook as plain data: what the renderer reads, and nothing else.
//!
//! Every text block is already one string here, every missing field already
//! its default. Any value of these types is a valid notebook.

use vstd::prelude::*;

verus! {

/// One output of a code cell.
#[derive(Clone, Debug, PartialEq, Eq)]
pub struct Output {
    /// The `output_type` tag, `None` where the document gives no string.
    pub output_type: Option<String>,
    /// The text block of the `text` field, as a stream output carries it.
    pub text: String,
    /// The `text/plain` payload of an `execute_result` or `display_data`
    /// output; empty for every other output.
    pub plain_text: String,
}

/// One cell of a notebook.
#[derive(Clone, Debug, PartialEq, Eq)]
pub struct Cell {
    /// The `cell_type` tag; `"code"` where the document gives no string.
    pub cell_type: String,
    /// The text block of the `source` field.
    pub source: String,
    /// The outputs, in document order.
    pub outputs: Vec<Output>,
}

/// A notebook: an optional title and the cells in document order.
#[derive(Clone, Debug, PartialEq, Eq)]
pub struct Notebook {
    /// `metadata.title`, where it is a string.
    pub title: Option<String>,
    /// The cells, in document order.
    pub cells: Vec<Cell>,
}

/// The mathematical value of an [`Output`].
pub ghost struct OutputView {
    pub output_type: Option<Seq<char>>,
    pub text: Seq<char>,
    pub plain_text: Seq<char>,
}

/// The mathematical value of a [`Cell`].
pub ghost struct CellView {
    pub cell_type: Seq<char>,
    pub source: Seq<char>,
    pub outputs: Seq<OutputView>,
}

/// The mathematical value of a [`Notebook`].
pub ghost struct NotebookView {
    pub title: Option<Seq<char>>,
    pub cells: Seq<CellView>,
}

/// The characters of an optional string.
pub open spec fn optional_text(s: Option<String>) -> Option<Seq<char>> {
    match s {
        Some(t) => Some(t@),
        None => None,
    }
}

impl View for Output {
    type V = OutputView;

    open spec fn view(&self) -> OutputView {
        OutputView {
            output_type: optional_text(self.output_type),
            text: self.text@,
            plain_text: self.plain_text@,
        }
    }
}

impl View for Cell {
    type V = CellView;

    open spec fn view(&self) -> CellView {
        CellView {
            cell_type: self.cell_type@,
            source: self.source@,
            outputs: self.outputs@.map_values(|o: Output| o@),
        }
    }
}

impl View for Notebook {
    type V = NotebookView;

    open spec fn view(&self) -> NotebookView {
        NotebookView { title: optional_text(self.title), cells: self.cells@.map_values(|c: Cell| c@) }
    }
}

} // verus!
