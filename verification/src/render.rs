//! The Markdown renderer: one pass over the cells, in document order.

use crate::notebook::{Cell, CellView, Notebook, NotebookView, Output, OutputView};
use crate::text::same_text;
use vstd::prelude::*;

verus! {

/// The title as a level-one heading followed by a blank line; nothing where
/// the notebook has no title.
pub open spec fn heading_markdown(title: Option<Seq<char>>) -> Seq<char> {
    match title {
        Some(t) => "# "@ + t + "\n\n"@,
        None => Seq::empty(),
    }
}

/// A Markdown cell: its source as it stands, then a blank line.
pub open spec fn prose_markdown(source: Seq<char>) -> Seq<char> {
    source + "\n\n"@
}

/// A code cell's source in a fenced block that is always tagged `python`,
/// then a blank line.
pub open spec fn code_markdown(source: Seq<char>) -> Seq<char> {
    "```python\n"@ + source + "\n```\n\n"@
}

/// A stream output: the label `输出:` ("Output:"), a blank line, then the
/// text in a fenced block without a language tag.
pub open spec fn stream_markdown(text: Seq<char>) -> Seq<char> {
    "输出:\n\n```\n"@ + text + "\n```\n\n"@
}

/// A result: the label `结果:` ("Result:"), a blank line, then the text in a
/// fenced block without a language tag; nothing at all, not even the label,
/// where there is no text to show.
pub open spec fn result_markdown(text: Seq<char>) -> Seq<char> {
    if text.len() == 0 {
        Seq::empty()
    } else {
        "结果:\n\n```\n"@ + text + "\n```\n\n"@
    }
}

/// What one output contributes: a stream block for `stream`, a result block
/// for `execute_result` and `display_data`, nothing for any other tag or for
/// no tag.
pub open spec fn output_markdown(output: OutputView) -> Seq<char> {
    match output.output_type {
        Some(tag) => if tag == "stream"@ {
            stream_markdown(output.text)
        } else if tag == "execute_result"@ || tag == "display_data"@ {
            result_markdown(output.plain_text)
        } else {
            Seq::empty()
        },
        None => Seq::empty(),
    }
}

/// The contributions of a cell's outputs, in order.
pub open spec fn outputs_markdown(outputs: Seq<OutputView>) -> Seq<char> {
    outputs.flat_map(|o: OutputView| output_markdown(o))
}

/// What one cell contributes: its prose where it is tagged `markdown`; with
/// any other tag its code block, followed by its outputs.
pub open spec fn cell_markdown(cell: CellView) -> Seq<char> {
    if cell.cell_type == "markdown"@ {
        prose_markdown(cell.source)
    } else {
        code_markdown(cell.source) + outputs_markdown(cell.outputs)
    }
}

/// The contributions of the cells, in order.
pub open spec fn cells_markdown(cells: Seq<CellView>) -> Seq<char> {
    cells.flat_map(|c: CellView| cell_markdown(c))
}

/// The whole document: the heading, then the cells.
pub open spec fn notebook_markdown(notebook: NotebookView) -> Seq<char> {
    heading_markdown(notebook.title) + cells_markdown(notebook.cells)
}

/// Appends one output's Markdown to `buf`.
pub fn push_output(buf: &mut String, output: &Output)
    ensures
        final(buf)@ == old(buf)@ + output_markdown(output@),
{
    match &output.output_type {
        Some(tag) => {
            if same_text(tag.as_str(), "stream") {
                buf.append("输出:\n\n```\n");
                buf.append(output.text.as_str());
                buf.append("\n```\n\n");
                assert(buf@ =~= old(buf)@ + stream_markdown(output@.text));
            } else if same_text(tag.as_str(), "execute_result") || same_text(
                tag.as_str(),
                "display_data",
            ) {
                if !output.plain_text.as_str().is_empty() {
                    buf.append("结果:\n\n```\n");
                    buf.append(output.plain_text.as_str());
                    buf.append("\n```\n\n");
                }
                assert(buf@ =~= old(buf)@ + result_markdown(output@.plain_text));
            } else {
                assert(buf@ =~= old(buf)@ + Seq::<char>::empty());
            }
        },
        None => {
            assert(buf@ =~= old(buf)@ + Seq::<char>::empty());
        },
    }
}

/// Appends one cell's Markdown to `buf`.
pub fn push_cell(buf: &mut String, cell: &Cell)
    ensures
        final(buf)@ == old(buf)@ + cell_markdown(cell@),
{
    if same_text(cell.cell_type.as_str(), "markdown") {
        buf.append(cell.source.as_str());
        buf.append("\n\n");
        assert(buf@ =~= old(buf)@ + prose_markdown(cell@.source));
    } else {
        buf.append("```python\n");
        buf.append(cell.source.as_str());
        buf.append("\n```\n\n");
        let ghost start = buf@;
        assert(start =~= old(buf)@ + code_markdown(cell@.source));
        let mut i: usize = 0;
        while i < cell.outputs.len()
            invariant
                i <= cell.outputs.len(),
                buf@ == start + outputs_markdown(cell@.outputs.take(i as int)),
            decreases cell.outputs.len() - i,
        {
            push_output(buf, &cell.outputs[i]);
            proof {
                cell@.outputs.lemma_flat_map_take_append(
                    |o: OutputView| output_markdown(o),
                    i as int,
                );
                assert(buf@ =~= start + outputs_markdown(cell@.outputs.take(i + 1)));
            }
            i += 1;
        }
        proof {
            assert(cell@.outputs.take(i as int) =~= cell@.outputs);
            assert(buf@ =~= old(buf)@ + (code_markdown(cell@.source) + outputs_markdown(
                cell@.outputs,
            )));
        }
    }
}

/// Renders a notebook as Markdown.
pub fn render_notebook(notebook: &Notebook) -> (markdown: String)
    ensures
        markdown@ == notebook_markdown(notebook@),
{
    let mut markdown = String::new();
    match &notebook.title {
        Some(title) => {
            markdown.append("# ");
            markdown.append(title.as_str());
            markdown.append("\n\n");
        },
        None => {},
    }
    assert(markdown@ =~= heading_markdown(notebook@.title));
    let mut i: usize = 0;
    while i < notebook.cells.len()
        invariant
            i <= notebook.cells.len(),
            markdown@ == heading_markdown(notebook@.title) + cells_markdown(
                notebook@.cells.take(i as int),
            ),
        decreases notebook.cells.len() - i,
    {
        push_cell(&mut markdown, &notebook.cells[i]);
        proof {
            notebook@.cells.lemma_flat_map_take_append(|c: CellView| cell_markdown(c), i as int);
            assert(markdown@ =~= heading_markdown(notebook@.title) + cells_markdown(
                notebook@.cells.take(i + 1),
            ));
        }
        i += 1;
    }
    proof {
        assert(notebook@.cells.take(i as int) =~= notebook@.cells);
    }
    markdown
}

} // verus!
