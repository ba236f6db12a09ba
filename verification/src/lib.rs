//! Markdown to HTML and to a JSON-encoded syntax tree, on one shared,
//! immutable parser configuration.
//!
//! Both entry points are pure, synchronous text transformations: grammar
//! recognition is delegated to the external Markdown engine, and this
//! library fixes the configuration, walks the parsed tree, and encodes
//! every node kind losslessly as JSON.

use vstd::prelude::*;

pub mod config;
pub mod encode;
pub mod engine;
pub mod json;
pub mod laws;
pub mod node;
pub mod walk;

use crate::config::{build_configuration, spec_default_configuration};
use crate::engine::{is_engine_render, json_text_of, parse_markdown, parsed_doc_of,
    render_json, render_markdown};
use crate::json::{JsonValue, JsonView};
use crate::laws::{lemma_top_level_type_is_document, lemma_tree_shape_ok, tree_shape_ok};
use crate::node::MdNode;
use crate::walk::{node_to_json, spec_node_to_json};

verus! {

/// The document tree of the given input under the fixed configuration.
pub open spec fn spec_parsed_doc(input: Seq<char>) -> MdNode {
    parsed_doc_of(input, spec_default_configuration())
}

/// The JSON text `markdown_to_ast` returns for the given input.
pub open spec fn spec_ast_text(input: Seq<char>) -> Seq<char> {
    json_text_of(spec_node_to_json(spec_parsed_doc(input)))
}

/// Renders Markdown text as an HTML fragment: the external engine's
/// rendering of the input, returned unmodified, under the same fixed
/// configuration the tree path uses, so both paths recognize the same
/// syntax. Raw HTML in the input is passed through unescaped, so a caller
/// embedding untrusted input must sanitize the result itself. The
/// delegated renderer writes a code block's attributes in hash-map
/// iteration order, so two renderings of one input may differ there: the
/// contract names the relation of possible renderings, not one text.
pub fn markdown_to_html(input: &str) -> (r: String)
    ensures
        is_engine_render(input@, spec_default_configuration(), r@),
{
    let cfg = build_configuration();
    render_markdown(input, &cfg)
}

/// Parses Markdown text into a document tree under the fixed
/// configuration. The root node is always the document node.
pub fn markdown_to_tree(input: &str) -> (r: MdNode)
    ensures
        r == spec_parsed_doc(input@),
        r.kind is Document,
{
    let cfg = build_configuration();
    parse_markdown(input, &cfg)
}

/// Converts Markdown text into the canonical JSON value of its document
/// tree, under the same fixed configuration the HTML path uses.
pub fn markdown_to_ast_value(input: &str) -> (r: JsonValue)
    ensures
        r@ == spec_node_to_json(spec_parsed_doc(input@)),
        spec_parsed_doc(input@).kind is Document,
        tree_shape_ok(r@),
        r@ is Obj,
        r@->Obj_0[0] == ("type"@, JsonView::Str("document"@)),
{
    let doc = markdown_to_tree(input);
    let r = node_to_json(&doc);
    proof {
        lemma_tree_shape_ok(doc);
        lemma_top_level_type_is_document(doc);
    }
    r
}

/// Converts Markdown text into JSON text encoding its document tree.
/// The top-level JSON value is always an object whose `type` is
/// `"document"`.
pub fn markdown_to_ast(input: &str) -> (r: String)
    ensures
        r@ == spec_ast_text(input@),
        spec_parsed_doc(input@).kind is Document,
{
    let value = markdown_to_ast_value(input);
    render_json(&value)
}

} // verus!
