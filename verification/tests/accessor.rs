use ipynb_markdown::accessor::{
    cell_type, cells, output_plain_text, output_type, outputs, push_fragment, read_cell,
    read_notebook, read_output, text_block, title,
};
use ipynb_markdown::{Cell, Notebook, Output};
use serde_json::Value;

fn json(text: &str) -> Value {
    serde_json::from_str(text).expect("the test document is valid JSON")
}

#[test]
fn title_is_read_from_metadata() {
    assert_eq!(title(&json(r#"{"metadata": {"title": "Report"}}"#)), Some("Report"));
}

#[test]
fn title_is_none_without_a_string() {
    assert_eq!(title(&json("{}")), None);
    assert_eq!(title(&json(r#"{"metadata": {}}"#)), None);
    assert_eq!(title(&json(r#"{"metadata": {"title": 1}}"#)), None);
    assert_eq!(title(&json(r#"{"metadata": null}"#)), None);
    assert_eq!(title(&json(r#"{"title": "top level"}"#)), None);
    assert_eq!(title(&json(r#"["metadata"]"#)), None);
}

#[test]
fn cells_are_the_elements_in_order() {
    let notebook = json(r#"{"cells": [{"id": 1}, "second", 3]}"#);
    let list = cells(&notebook);
    assert_eq!(list.len(), 3);
    assert_eq!(list[0], json(r#"{"id": 1}"#));
    assert_eq!(list[1], json(r#""second""#));
    assert_eq!(list[2], json("3"));
}

#[test]
fn cells_are_empty_without_a_list() {
    assert!(cells(&json("{}")).is_empty());
    assert!(cells(&json(r#"{"cells": null}"#)).is_empty());
    assert!(cells(&json(r#"{"cells": {"a": 1}}"#)).is_empty());
    assert!(cells(&json(r#"{"cells": "x"}"#)).is_empty());
    assert!(cells(&json(r#"[{"cell_type": "code"}]"#)).is_empty());
}

#[test]
fn cell_type_is_read_or_defaults_to_code() {
    assert_eq!(cell_type(&json(r#"{"cell_type": "markdown"}"#)), "markdown");
    assert_eq!(cell_type(&json(r#"{"cell_type": "raw"}"#)), "raw");
    assert_eq!(cell_type(&json(r#"{"cell_type": ""}"#)), "");
    assert_eq!(cell_type(&json("{}")), "code");
    assert_eq!(cell_type(&json(r#"{"cell_type": null}"#)), "code");
    assert_eq!(cell_type(&json(r#"{"cell_type": ["markdown"]}"#)), "code");
    assert_eq!(cell_type(&json("5")), "code");
}

#[test]
fn push_fragment_appends_a_string_and_skips_none() {
    let mut text = String::from("a");
    push_fragment(&mut text, Some("b\n"));
    push_fragment(&mut text, None);
    push_fragment(&mut text, Some(""));
    push_fragment(&mut text, Some("c"));
    assert_eq!(text, "ab\nc");
}

#[test]
fn text_block_joins_fragments() {
    let cell = json(r#"{"source": ["Hello ", "world"]}"#);
    assert_eq!(text_block(&cell, "source"), "Hello world");
}

#[test]
fn text_block_skips_what_is_no_string() {
    let cell = json(r#"{"source": [1, "a", null, "b", ["c"], {"d": "e"}, false]}"#);
    assert_eq!(text_block(&cell, "source"), "ab");
}

#[test]
fn text_block_takes_a_single_string_verbatim() {
    let cell = json(r#"{"source": "  one\n two  "}"#);
    assert_eq!(text_block(&cell, "source"), "  one\n two  ");
}

#[test]
fn text_block_is_empty_otherwise() {
    assert_eq!(text_block(&json("{}"), "source"), "");
    assert_eq!(text_block(&json(r#"{"source": 1}"#), "source"), "");
    assert_eq!(text_block(&json(r#"{"source": {"text": "x"}}"#), "source"), "");
    assert_eq!(text_block(&json(r#"{"source": []}"#), "source"), "");
    assert_eq!(text_block(&json(r#"{"source": "x"}"#), "text"), "");
    assert_eq!(text_block(&json(r#""source""#), "source"), "");
}

#[test]
fn text_block_reads_the_named_field() {
    let node = json(r#"{"text": "from text", "text/plain": ["from ", "plain"], "source": "from source"}"#);
    assert_eq!(text_block(&node, "text"), "from text");
    assert_eq!(text_block(&node, "text/plain"), "from plain");
    assert_eq!(text_block(&node, "source"), "from source");
}

#[test]
fn outputs_are_the_elements_in_order() {
    let cell = json(r#"{"outputs": [{"output_type": "stream"}, {"output_type": "error"}]}"#);
    let list = outputs(&cell);
    assert_eq!(list.len(), 2);
    assert_eq!(output_type(&list[0]), Some("stream"));
    assert_eq!(output_type(&list[1]), Some("error"));
}

#[test]
fn outputs_are_empty_without_a_list() {
    assert!(outputs(&json("{}")).is_empty());
    assert!(outputs(&json(r#"{"outputs": "x"}"#)).is_empty());
    assert!(outputs(&json(r#"{"cells": [1]}"#)).is_empty());
}

#[test]
fn output_type_is_none_without_a_string() {
    assert_eq!(output_type(&json("{}")), None);
    assert_eq!(output_type(&json(r#"{"output_type": 1}"#)), None);
    assert_eq!(output_type(&json("null")), None);
}

#[test]
fn output_plain_text_of_results() {
    let result = json(r#"{"output_type": "execute_result", "data": {"text/plain": ["4", "2"]}}"#);
    assert_eq!(output_plain_text(&result), "42");
    let display = json(r#"{"output_type": "display_data", "data": {"text/plain": "fig"}}"#);
    assert_eq!(output_plain_text(&display), "fig");
}

#[test]
fn output_plain_text_is_empty_for_other_outputs() {
    let stream = json(r#"{"output_type": "stream", "data": {"text/plain": "x"}}"#);
    assert_eq!(output_plain_text(&stream), "");
    let untyped = json(r#"{"data": {"text/plain": "x"}}"#);
    assert_eq!(output_plain_text(&untyped), "");
    let image = json(r#"{"output_type": "execute_result", "data": {"image/png": "iVBOR"}}"#);
    assert_eq!(output_plain_text(&image), "");
    let no_data = json(r#"{"output_type": "execute_result"}"#);
    assert_eq!(output_plain_text(&no_data), "");
    let data_list = json(r#"{"output_type": "execute_result", "data": ["text/plain"]}"#);
    assert_eq!(output_plain_text(&data_list), "");
}

#[test]
fn read_output_gathers_the_three_fields() {
    let output = json(
        r#"{"output_type": "execute_result", "text": ["t"], "data": {"text/plain": ["p", "q"]}}"#,
    );
    assert_eq!(
        read_output(&output),
        Output {
            output_type: Some("execute_result".to_string()),
            text: "t".to_string(),
            plain_text: "pq".to_string(),
        }
    );
    assert_eq!(
        read_output(&json("{}")),
        Output { output_type: None, text: String::new(), plain_text: String::new() }
    );
}

#[test]
fn read_cell_gathers_type_source_and_outputs() {
    let cell = json(
        r#"{"source": ["a\n", "b"], "outputs": [{"output_type": "stream", "text": "out"}, 7]}"#,
    );
    assert_eq!(
        read_cell(&cell),
        Cell {
            cell_type: "code".to_string(),
            source: "a\nb".to_string(),
            outputs: vec![
                Output {
                    output_type: Some("stream".to_string()),
                    text: "out".to_string(),
                    plain_text: String::new(),
                },
                Output { output_type: None, text: String::new(), plain_text: String::new() },
            ],
        }
    );
}

#[test]
fn read_notebook_gathers_title_and_cells() {
    let notebook = json(
        r#"{"metadata": {"title": "T"},
            "cells": [{"cell_type": "markdown", "source": "m"}, {"source": ["c"]}]}"#,
    );
    assert_eq!(
        read_notebook(&notebook),
        Notebook {
            title: Some("T".to_string()),
            cells: vec![
                Cell { cell_type: "markdown".to_string(), source: "m".to_string(), outputs: vec![] },
                Cell { cell_type: "code".to_string(), source: "c".to_string(), outputs: vec![] },
            ],
        }
    );
    assert_eq!(read_notebook(&json("[]")), Notebook { title: None, cells: vec![] });
}
