//! Which files are notebooks, and what their Markdown files are called.

use crate::text::same_text;
use vstd::prelude::*;

verus! {

/// Whether a file extension, given without its dot, marks a notebook. Only
/// `ipynb` does, in exactly this spelling.
pub fn is_notebook_extension(extension: &str) -> (r: bool)
    ensures
        r == (extension@ == "ipynb"@),
{
    same_text(extension, "ipynb")
}

/// The name of the Markdown file for a notebook whose file name, without its
/// extension, is `stem`.
pub fn markdown_file_name(stem: &str) -> (name: String)
    ensures
        name@ == stem@ + ".md"@,
{
    let mut name = stem.to_owned();
    name.append(".md");
    name
}

} // verus!
