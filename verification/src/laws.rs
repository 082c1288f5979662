//! What holds of every rendering, proved from the definitions.

use crate::accessor::{
    cell_of, cells_of, fragment_of, joined_fragments, notebook_of, output_of, output_type_of,
    text_block_of, text_of, title_of,
};
use crate::convert::document_markdown;
use crate::json::Json;
use crate::notebook::{CellView, NotebookView, OutputView};
use crate::render::{
    cell_markdown, cells_markdown, code_markdown, heading_markdown, notebook_markdown,
    output_markdown, outputs_markdown,
};
use vstd::prelude::*;

verus! {

/// A notebook without cells renders as its heading alone: the title line and
/// a blank line where it has a title, the empty string where it has none.
pub proof fn lemma_no_cells(notebook: NotebookView)
    requires
        notebook.cells.len() == 0,
    ensures
        notebook_markdown(notebook) == heading_markdown(notebook.title),
        notebook.title is None ==> notebook_markdown(notebook) == Seq::<char>::empty(),
        notebook.title matches Some(t) ==> notebook_markdown(notebook) == "# "@ + t + "\n\n"@,
{
    assert(cells_markdown(notebook.cells) =~= Seq::<char>::empty());
    assert(notebook_markdown(notebook) =~= heading_markdown(notebook.title));
}

/// A document whose cell list is absent, no list, or empty converts to its
/// heading alone.
pub proof fn lemma_document_without_cells(notebook: Json)
    requires
        cells_of(notebook).len() == 0,
    ensures
        document_markdown(notebook) == heading_markdown(title_of(notebook)),
{
    lemma_no_cells(notebook_of(notebook));
}

/// Appending a fragment to a list appends its text to the block, and nothing
/// else: no separator comes between fragments, and an element that is no
/// string adds nothing.
pub proof fn lemma_fragment_appended(items: Seq<Json>, last: Json)
    ensures
        joined_fragments(items.push(last)) == joined_fragments(items) + fragment_of(last),
        last is Text ==> joined_fragments(items.push(last)) == joined_fragments(items)
            + last->Text_0,
        !(last is Text) ==> joined_fragments(items.push(last)) == joined_fragments(items),
{
    items.lemma_flat_map_push(|v: Json| fragment_of(v), last);
    assert(joined_fragments(items) + Seq::<char>::empty() =~= joined_fragments(items));
}

/// A list of two strings stands for the first followed at once by the second.
pub proof fn lemma_two_fragments(first: Seq<char>, second: Seq<char>)
    ensures
        text_of(Json::List(seq![Json::Text(first), Json::Text(second)])) == first + second,
{
    let none = Seq::<Json>::empty();
    lemma_fragment_appended(none, Json::Text(first));
    lemma_fragment_appended(none.push(Json::Text(first)), Json::Text(second));
    assert(none.push(Json::Text(first)).push(Json::Text(second)) =~= seq![
        Json::Text(first),
        Json::Text(second),
    ]);
    assert(joined_fragments(none) =~= Seq::<char>::empty());
    assert(Seq::<char>::empty() + first =~= first);
}

/// A code cell without outputs is its fenced block and nothing more: no
/// label follows the block.
pub proof fn lemma_code_cell_without_outputs(cell: CellView)
    requires
        cell.cell_type != "markdown"@,
        cell.outputs.len() == 0,
    ensures
        cell_markdown(cell) == "```python\n"@ + cell.source + "\n```\n\n"@,
{
    assert(outputs_markdown(cell.outputs) =~= Seq::<char>::empty());
    assert(cell_markdown(cell) =~= code_markdown(cell.source));
}

/// A stream output contributes its label and then exactly its text in a
/// fenced block.
pub proof fn lemma_stream_output(output: OutputView)
    requires
        output.output_type == Some("stream"@),
    ensures
        output_markdown(output) == "输出:\n\n```\n"@ + output.text + "\n```\n\n"@,
{
}

/// A result without plain text leaves no trace: an `execute_result` or
/// `display_data` output whose plain text is empty contributes nothing.
pub proof fn lemma_empty_result(output: OutputView)
    requires
        output.output_type == Some("execute_result"@) || output.output_type == Some(
            "display_data"@,
        ),
        output.plain_text.len() == 0,
    ensures
        output_markdown(output) == Seq::<char>::empty(),
{
    reveal_strlit("stream");
    reveal_strlit("execute_result");
    reveal_strlit("display_data");
    assert("stream"@.len() == 6);
    assert("execute_result"@.len() == 14);
    assert("display_data"@.len() == 12);
}

/// An `execute_result` or `display_data` output of a document whose `data`
/// has no `text/plain` member, whatever else it holds, contributes nothing.
pub proof fn lemma_result_without_plain_text(output: Json)
    requires
        output_type_of(output) == Some("execute_result"@) || output_type_of(output) == Some(
            "display_data"@,
        ),
        match output.member("data"@) {
            Some(data) => data.member("text/plain"@) is None,
            None => true,
        },
    ensures
        output_markdown(output_of(output)) == Seq::<char>::empty(),
{
    lemma_empty_result(output_of(output));
}

/// Rendering has no hidden state: any two renderings of one notebook are the
/// same string.
pub proof fn lemma_rendering_repeats(notebook: NotebookView, first: String, second: String)
    requires
        first@ == notebook_markdown(notebook),
        second@ == notebook_markdown(notebook),
    ensures
        first@ == second@,
{
}

/// Any two conversions of one document are the same string.
pub proof fn lemma_conversion_repeats(notebook: Json, first: String, second: String)
    requires
        first@ == document_markdown(notebook),
        second@ == document_markdown(notebook),
    ensures
        first@ == second@,
{
}

/// A cell is rendered as code unless it is tagged `markdown`: whatever its
/// tag, the code block and the outputs appear, and the cell is not dropped.
pub proof fn lemma_untyped_cell_is_code(cell: CellView)
    requires
        cell.cell_type != "markdown"@,
    ensures
        cell_markdown(cell) == code_markdown(cell.source) + outputs_markdown(cell.outputs),
        cell_markdown(cell).len() > 0,
{
    reveal_strlit("```python\n");
}

/// A cell of a document that has no `cell_type` member is rendered as a code
/// cell.
pub proof fn lemma_cell_without_type(cell: Json)
    requires
        cell.member("cell_type"@) is None,
    ensures
        cell_of(cell).cell_type == "code"@,
        cell_markdown(cell_of(cell)) == code_markdown(text_block_of(cell, "source"@))
            + outputs_markdown(cell_of(cell).outputs),
        cell_markdown(cell_of(cell)).len() > 0,
{
    reveal_strlit("code");
    reveal_strlit("markdown");
    assert("code"@.len() == 4);
    assert("markdown"@.len() == 8);
    lemma_untyped_cell_is_code(cell_of(cell));
}

/// A notebook without a title starts with its first cell: no heading line
/// is put before the cells.
pub proof fn lemma_no_title(notebook: NotebookView)
    requires
        notebook.title is None,
    ensures
        notebook_markdown(notebook) == cells_markdown(notebook.cells),
{
    assert(notebook_markdown(notebook) =~= cells_markdown(notebook.cells));
}

/// A document whose `metadata` has no `title` member converts without a
/// heading.
pub proof fn lemma_metadata_without_title(notebook: Json)
    requires
        match notebook.member("metadata"@) {
            Some(metadata) => metadata.member("title"@) is None,
            None => true,
        },
    ensures
        document_markdown(notebook) == cells_markdown(notebook_of(notebook).cells),
{
    lemma_no_title(notebook_of(notebook));
}

} // verus!
