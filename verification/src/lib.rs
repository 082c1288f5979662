//! Rendering of Jupyter notebook documents as Markdown text.
//!
//! A notebook arrives as a loosely typed JSON document. [`accessor`] reads it
//! without ever failing on a missing or mistyped field and fills the plain
//! data model of [`notebook`]; [`render`] turns that model into one Markdown
//! string. [`convert`] joins the two, [`naming`] holds the file-name rules of
//! a batch conversion, and [`laws`] states what holds of every rendering.
//! [`json`] and [`text`] hold what is taken on trust.

pub mod accessor;
pub mod convert;
pub mod json;
pub mod laws;
pub mod naming;
pub mod notebook;
pub mod render;
pub mod text;

pub use convert::{convert_notebook_source, convert_notebook_to_markdown, ParseError};
pub use notebook::{Cell, Notebook, Output};
pub use render::render_notebook;
