//! Fail-soft access to a notebook document.
//!
//! Notebooks in the wild miss fields, or hold a value of an unexpected kind
//! where a string or a list belongs. No accessor here fails on that: each
//! returns the default that its contract names. The `read_*` functions apply
//! the accessors once and hand the renderer plain data.

use crate::json::{json_of, jsons_of, member, Json};
use crate::notebook::{Cell, CellView, Notebook, NotebookView, Output, OutputView};
use crate::text::same_text;
use serde_json::Value;
use vstd::prelude::*;

verus! {

/// The title: the string under `metadata.title`; `None` where `metadata` is
/// no object, has no `title`, or holds something other than a string there.
pub open spec fn title_of(notebook: Json) -> Option<Seq<char>> {
    match notebook.member("metadata"@) {
        Some(metadata) => match metadata.member("title"@) {
            Some(title) => title.text(),
            None => None,
        },
        None => None,
    }
}

/// The elements of the list under `field`; empty where the field is absent
/// or no list.
pub open spec fn items_of(node: Json, field: Seq<char>) -> Seq<Json> {
    match node.member(field) {
        Some(v) => match v.items() {
            Some(items) => items,
            None => Seq::empty(),
        },
        None => Seq::empty(),
    }
}

/// The cells of a notebook, in document order.
pub open spec fn cells_of(notebook: Json) -> Seq<Json> {
    items_of(notebook, "cells"@)
}

/// The outputs of a cell, in document order.
pub open spec fn outputs_of(cell: Json) -> Seq<Json> {
    items_of(cell, "outputs"@)
}

/// The string under `field`; `None` where the field is absent or no string.
pub open spec fn tag_of(node: Json, field: Seq<char>) -> Option<Seq<char>> {
    match node.member(field) {
        Some(v) => v.text(),
        None => None,
    }
}

/// The cell's type: the string under `cell_type`, and `"code"` where there is
/// none, so that a cell without a usable tag is rendered as code.
pub open spec fn cell_type_of(cell: Json) -> Seq<char> {
    match tag_of(cell, "cell_type"@) {
        Some(tag) => tag,
        None => "code"@,
    }
}

/// The output's type: the string under `output_type`, if there is one.
pub open spec fn output_type_of(output: Json) -> Option<Seq<char>> {
    tag_of(output, "output_type"@)
}

/// What one element of a fragment list adds to a text block: its text where
/// it is a string, nothing where it is anything else.
pub open spec fn fragment_of(v: Json) -> Seq<char> {
    match v.text() {
        Some(s) => s,
        None => Seq::empty(),
    }
}

/// The fragments of a list, joined with nothing between them.
pub open spec fn joined_fragments(items: Seq<Json>) -> Seq<char> {
    items.flat_map(|v: Json| fragment_of(v))
}

/// The text that a value stands for: the joined fragments of a list, the
/// text of a single string, nothing for any other value.
pub open spec fn text_of(v: Json) -> Seq<char> {
    match v.items() {
        Some(items) => joined_fragments(items),
        None => fragment_of(v),
    }
}

/// The text block under `field`; empty where the field is absent.
pub open spec fn text_block_of(node: Json, field: Seq<char>) -> Seq<char> {
    match node.member(field) {
        Some(v) => text_of(v),
        None => Seq::empty(),
    }
}

/// The plain-text payload of a result: the text block under
/// `data["text/plain"]` of an `execute_result` or `display_data` output;
/// empty for every other output, and where `data` is no object.
pub open spec fn output_plain_text_of(output: Json) -> Seq<char> {
    match output_type_of(output) {
        Some(tag) => if tag == "execute_result"@ || tag == "display_data"@ {
            match output.member("data"@) {
                Some(data) => text_block_of(data, "text/plain"@),
                None => Seq::empty(),
            }
        } else {
            Seq::empty()
        },
        None => Seq::empty(),
    }
}

/// The plain data of one output of the document.
pub open spec fn output_of(output: Json) -> OutputView {
    OutputView {
        output_type: output_type_of(output),
        text: text_block_of(output, "text"@),
        plain_text: output_plain_text_of(output),
    }
}

/// The plain data of one cell of the document.
pub open spec fn cell_of(cell: Json) -> CellView {
    CellView {
        cell_type: cell_type_of(cell),
        source: text_block_of(cell, "source"@),
        outputs: outputs_of(cell).map_values(|o: Json| output_of(o)),
    }
}

/// The plain data of a notebook document.
pub open spec fn notebook_of(notebook: Json) -> NotebookView {
    NotebookView {
        title: title_of(notebook),
        cells: cells_of(notebook).map_values(|c: Json| cell_of(c)),
    }
}

/// The string under `field` of `node`, if there is one.
fn string_field<'a>(node: &'a Value, field: &str) -> (r: Option<&'a str>)
    ensures
        match r {
            Some(s) => tag_of(json_of(*node), field@) == Some(s@),
            None => tag_of(json_of(*node), field@) is None,
        },
{
    match member(node, field) {
        Some(v) => v.as_str(),
        None => None,
    }
}

/// The elements of the list under `field` of `node`; empty without one.
fn list_field<'a>(node: &'a Value, field: &str) -> (r: &'a [Value])
    ensures
        jsons_of(r@) == items_of(json_of(*node), field@),
{
    let r: &[Value] = match member(node, field) {
        Some(v) => match v.as_array() {
            Some(list) => list.as_slice(),
            None => &[],
        },
        None => &[],
    };
    assert(jsons_of(r@) =~= items_of(json_of(*node), field@));
    r
}

/// The notebook's title, if it has one.
pub fn title<'a>(notebook: &'a Value) -> (r: Option<&'a str>)
    ensures
        match r {
            Some(s) => title_of(json_of(*notebook)) == Some(s@),
            None => title_of(json_of(*notebook)) is None,
        },
{
    match member(notebook, "metadata") {
        Some(metadata) => string_field(metadata, "title"),
        None => None,
    }
}

/// The notebook's cells, in document order; empty where `cells` is absent or
/// no list.
pub fn cells<'a>(notebook: &'a Value) -> (r: &'a [Value])
    ensures
        jsons_of(r@) == cells_of(json_of(*notebook)),
{
    list_field(notebook, "cells")
}

/// The cell's type, `"code"` where the cell does not say.
pub fn cell_type<'a>(cell: &'a Value) -> (r: &'a str)
    ensures
        r@ == cell_type_of(json_of(*cell)),
{
    match string_field(cell, "cell_type") {
        Some(s) => s,
        None => "code",
    }
}

/// Appends a fragment to a text block: the string where there is one,
/// nothing where there is none.
pub fn push_fragment(text: &mut String, fragment: Option<&str>)
    ensures
        final(text)@ == old(text)@ + (match fragment {
            Some(s) => s@,
            None => Seq::empty(),
        }),
{
    match fragment {
        Some(s) => {
            text.append(s);
        },
        None => {
            assert(text@ =~= old(text)@ + Seq::<char>::empty());
        },
    }
}

/// The text block under `field` of `node`: the fragments of a list joined
/// with nothing between them, or the single string, or nothing.
pub fn text_block(node: &Value, field: &str) -> (text: String)
    ensures
        text@ == text_block_of(json_of(*node), field@),
{
    let mut text = String::new();
    match member(node, field) {
        Some(v) => match v.as_array() {
            Some(list) => {
                let ghost fragments = jsons_of(list@);
                let mut i: usize = 0;
                while i < list.len()
                    invariant
                        i <= list.len(),
                        fragments == jsons_of(list@),
                        text@ == joined_fragments(fragments.take(i as int)),
                    decreases list.len() - i,
                {
                    push_fragment(&mut text, list[i].as_str());
                    proof {
                        fragments.lemma_flat_map_take_append(|v: Json| fragment_of(v), i as int);
                        assert(text@ =~= joined_fragments(fragments.take(i + 1)));
                    }
                    i += 1;
                }
                assert(fragments.take(i as int) =~= fragments);
            },
            None => {
                push_fragment(&mut text, v.as_str());
                assert(text@ =~= fragment_of(json_of(*v)));
            },
        },
        None => {},
    }
    text
}

/// The cell's outputs, in document order; empty where `outputs` is absent or
/// no list.
pub fn outputs<'a>(cell: &'a Value) -> (r: &'a [Value])
    ensures
        jsons_of(r@) == outputs_of(json_of(*cell)),
{
    list_field(cell, "outputs")
}

/// The output's type, if it names one.
pub fn output_type<'a>(output: &'a Value) -> (r: Option<&'a str>)
    ensures
        match r {
            Some(s) => output_type_of(json_of(*output)) == Some(s@),
            None => output_type_of(json_of(*output)) is None,
        },
{
    string_field(output, "output_type")
}

/// The plain-text payload of a result output; empty for any other output.
pub fn output_plain_text(output: &Value) -> (text: String)
    ensures
        text@ == output_plain_text_of(json_of(*output)),
{
    match output_type(output) {
        Some(tag) => {
            if same_text(tag, "execute_result") || same_text(tag, "display_data") {
                match member(output, "data") {
                    Some(data) => text_block(data, "text/plain"),
                    None => String::new(),
                }
            } else {
                String::new()
            }
        },
        None => String::new(),
    }
}

/// Reads one output into plain data.
pub fn read_output(output: &Value) -> (r: Output)
    ensures
        r@ == output_of(json_of(*output)),
{
    let output_type = match output_type(output) {
        Some(s) => Some(s.to_owned()),
        None => None,
    };
    Output { output_type, text: text_block(output, "text"), plain_text: output_plain_text(output) }
}

/// Reads one cell, with its outputs, into plain data.
pub fn read_cell(cell: &Value) -> (r: Cell)
    ensures
        r@ == cell_of(json_of(*cell)),
{
    let list = outputs(cell);
    let mut read: Vec<Output> = Vec::new();
    let mut i: usize = 0;
    while i < list.len()
        invariant
            i <= list.len(),
            read.len() == i,
            forall|j: int| 0 <= j < i ==> (#[trigger] read[j])@ == output_of(json_of(list[j])),
        decreases list.len() - i,
    {
        read.push(read_output(&list[i]));
        i += 1;
    }
    let r = Cell {
        cell_type: cell_type(cell).to_owned(),
        source: text_block(cell, "source"),
        outputs: read,
    };
    assert(r@.outputs =~= jsons_of(list@).map_values(|o: Json| output_of(o)));
    r
}

/// Reads a whole notebook document into plain data.
pub fn read_notebook(notebook: &Value) -> (r: Notebook)
    ensures
        r@ == notebook_of(json_of(*notebook)),
{
    let list = cells(notebook);
    let mut read: Vec<Cell> = Vec::new();
    let mut i: usize = 0;
    while i < list.len()
        invariant
            i <= list.len(),
            read.len() == i,
            forall|j: int| 0 <= j < i ==> (#[trigger] read[j])@ == cell_of(json_of(list[j])),
        decreases list.len() - i,
    {
        read.push(read_cell(&list[i]));
        i += 1;
    }
    let title = match title(notebook) {
        Some(s) => Some(s.to_owned()),
        None => None,
    };
    let r = Notebook { title, cells: read };
    assert(r@.cells =~= jsons_of(list@).map_values(|c: Json| cell_of(c)));
    r
}

} // verus!
