//! The node encoder: a total, pure mapping from a node kind to its string
//! tag and its kind-specific attribute pairs. The enum-to-string literals
//! here are part of the external JSON contract and are fixed, lowercase.

use vstd::prelude::*;
use crate::json::{elems_view, pairs_view, JsonValue, JsonView};
use crate::json::{lemma_elems_view_push, lemma_pairs_view_push};
use crate::node::{AlertKind, ColumnAlignment, ListDelim, ListKind, NodeKind};

verus! {

broadcast use lemma_elems_view_push, lemma_pairs_view_push;

/// The name a list kind carries in the JSON output.
pub open spec fn spec_list_kind_name(k: ListKind) -> Seq<char> {
    match k {
        ListKind::Bullet => "bullet"@,
        ListKind::Ordered => "ordered"@,
    }
}

/// The name an ordered-list delimiter carries in the JSON output.
pub open spec fn spec_delim_name(d: ListDelim) -> Seq<char> {
    match d {
        ListDelim::Period => "period"@,
        ListDelim::Paren => "paren"@,
    }
}

/// The name a column alignment carries in the JSON output.
pub open spec fn spec_alignment_name(a: ColumnAlignment) -> Seq<char> {
    match a {
        ColumnAlignment::Unaligned => "none"@,
        ColumnAlignment::Left => "left"@,
        ColumnAlignment::Center => "center"@,
        ColumnAlignment::Right => "right"@,
    }
}

/// The name an alert kind carries in the JSON output: the lowercased
/// variant name.
pub open spec fn spec_alert_name(a: AlertKind) -> Seq<char> {
    match a {
        AlertKind::Note => "note"@,
        AlertKind::Tip => "tip"@,
        AlertKind::Important => "important"@,
        AlertKind::Warning => "warning"@,
        AlertKind::Caution => "caution"@,
    }
}

/// The JSON value standing for an optional string: the string itself, or null.
pub open spec fn spec_opt_str(s: Option<String>) -> JsonView {
    match s {
        Some(s) => JsonView::Str(s@),
        None => JsonView::Null,
    }
}

/// The JSON value standing for a task item's optional marker symbol: the
/// one-character string holding it, or null.
pub open spec fn spec_opt_char(s: Option<char>) -> JsonView {
    match s {
        Some(c) => JsonView::Str(seq![c]),
        None => JsonView::Null,
    }
}

/// The alignment names of a table, as an ordered JSON array content.
pub open spec fn spec_alignment_views(s: Seq<ColumnAlignment>) -> Seq<JsonView> {
    Seq::new(s.len(), |i: int| JsonView::Str(spec_alignment_name(s[i])))
}

/// The string tag of a node kind: a total, deterministic function.
pub open spec fn spec_tag(k: NodeKind) -> Seq<char> {
    match k {
        NodeKind::Document => "document"@,
        NodeKind::FrontMatter(_) => "front_matter"@,
        NodeKind::BlockQuote => "block_quote"@,
        NodeKind::List(_) => "list"@,
        NodeKind::Item(_) => "item"@,
        NodeKind::DescriptionList => "description_list"@,
        NodeKind::DescriptionItem => "description_item"@,
        NodeKind::DescriptionTerm => "description_term"@,
        NodeKind::DescriptionDetails => "description_details"@,
        NodeKind::CodeBlock(_) => "code_block"@,
        NodeKind::HtmlBlock(_) => "html_block"@,
        NodeKind::Paragraph => "paragraph"@,
        NodeKind::Heading(_) => "heading"@,
        NodeKind::ThematicBreak => "thematic_break"@,
        NodeKind::FootnoteDefinition(_) => "footnote_definition"@,
        NodeKind::Table(_) => "table"@,
        NodeKind::TableRow(_) => "table_row"@,
        NodeKind::TableCell => "table_cell"@,
        NodeKind::Text(_) => "text"@,
        NodeKind::TaskItem(_) => "task_item"@,
        NodeKind::SoftBreak => "softbreak"@,
        NodeKind::LineBreak => "linebreak"@,
        NodeKind::Code(_) => "code"@,
        NodeKind::HtmlInline(_) => "html_inline"@,
        NodeKind::Raw(_) => "raw"@,
        NodeKind::Emph => "emph"@,
        NodeKind::Strong => "strong"@,
        NodeKind::Strikethrough => "strikethrough"@,
        NodeKind::Highlight => "highlight"@,
        NodeKind::Insert => "insert"@,
        NodeKind::Superscript => "superscript"@,
        NodeKind::Link(_) => "link"@,
        NodeKind::Image(_) => "image"@,
        NodeKind::FootnoteReference(_) => "footnote_reference"@,
        NodeKind::ShortCode(_) => "shortcode"@,
        NodeKind::Math(_) => "math"@,
        NodeKind::MultilineBlockQuote => "multiline_block_quote"@,
        NodeKind::Escaped => "escaped"@,
        NodeKind::WikiLink(_) => "wikilink"@,
        NodeKind::Underline => "underline"@,
        NodeKind::Subscript => "subscript"@,
        NodeKind::SpoileredText => "spoilered_text"@,
        NodeKind::EscapedTag(_) => "escaped_tag"@,
        NodeKind::Alert(_) => "alert"@,
        NodeKind::Subtext => "subtext"@,
        NodeKind::BlockDirective => "block_directive"@,
    }
}

/// The attribute pairs of a node kind: a total, deterministic function.
/// Kinds without attributes map to the empty sequence.
pub open spec fn spec_attrs(k: NodeKind) -> Seq<(Seq<char>, JsonView)> {
    match k {
        NodeKind::FrontMatter(s) => seq![("value"@, JsonView::Str(s@))],
        NodeKind::List(d) => seq![
            ("list_type"@, JsonView::Str(spec_list_kind_name(d.list_kind))),
            ("start"@, JsonView::UInt(d.start)),
            ("tight"@, JsonView::Bool(d.tight)),
            ("delimiter"@, JsonView::Str(spec_delim_name(d.delimiter))),
        ],
        NodeKind::Item(d) => seq![
            ("list_type"@, JsonView::Str(spec_list_kind_name(d.list_kind))),
            ("start"@, JsonView::UInt(d.start)),
            ("tight"@, JsonView::Bool(d.tight)),
        ],
        NodeKind::CodeBlock(d) => seq![
            ("fenced"@, JsonView::Bool(d.fenced)),
            ("info"@, JsonView::Str(d.info@)),
            ("literal"@, JsonView::Str(d.literal@)),
        ],
        NodeKind::HtmlBlock(d) => seq![
            ("block_type"@, JsonView::UInt(d.block_type as u64)),
            ("literal"@, JsonView::Str(d.literal@)),
        ],
        NodeKind::Heading(d) => seq![
            ("level"@, JsonView::UInt(d.level as u64)),
            ("setext"@, JsonView::Bool(d.setext)),
        ],
        NodeKind::FootnoteDefinition(name) => seq![("name"@, JsonView::Str(name@))],
        NodeKind::Table(d) => seq![
            ("alignments"@, JsonView::Arr(spec_alignment_views(d.alignments@))),
            ("num_columns"@, JsonView::UInt(d.num_columns)),
            ("num_rows"@, JsonView::UInt(d.num_rows)),
        ],
        NodeKind::TableRow(header) => seq![("header"@, JsonView::Bool(header))],
        NodeKind::Text(s) => seq![("value"@, JsonView::Str(s@))],
        NodeKind::TaskItem(symbol) => seq![("symbol"@, spec_opt_char(symbol))],
        NodeKind::Code(literal) => seq![("literal"@, JsonView::Str(literal@))],
        NodeKind::HtmlInline(s) => seq![("value"@, JsonView::Str(s@))],
        NodeKind::Raw(s) => seq![("value"@, JsonView::Str(s@))],
        NodeKind::Link(d) => seq![
            ("url"@, JsonView::Str(d.url@)),
            ("title"@, JsonView::Str(d.title@)),
        ],
        NodeKind::Image(d) => seq![
            ("url"@, JsonView::Str(d.url@)),
            ("title"@, JsonView::Str(d.title@)),
        ],
        NodeKind::FootnoteReference(d) => seq![
            ("name"@, JsonView::Str(d.name@)),
            ("ref_num"@, JsonView::UInt(d.ref_num as u64)),
            ("ix"@, JsonView::UInt(d.ix as u64)),
        ],
        NodeKind::ShortCode(d) => seq![
            ("code"@, JsonView::Str(d.code@)),
            ("emoji"@, JsonView::Str(d.emoji@)),
        ],
        NodeKind::Math(d) => seq![
            ("dollar_math"@, JsonView::Bool(d.dollar_math)),
            ("display_math"@, JsonView::Bool(d.display_math)),
            ("literal"@, JsonView::Str(d.literal@)),
        ],
        NodeKind::WikiLink(url) => seq![("url"@, JsonView::Str(url@))],
        NodeKind::EscapedTag(s) => seq![("value"@, JsonView::Str(s@))],
        NodeKind::Alert(d) => seq![
            ("alert_type"@, JsonView::Str(spec_alert_name(d.alert_kind))),
            ("title"@, spec_opt_str(d.title)),
        ],
        _ => Seq::empty(),
    }
}

/// The name of a list kind, as executable code.
pub fn list_kind_name(k: &ListKind) -> (r: String)
    ensures
        r@ == spec_list_kind_name(*k),
{
    match k {
        ListKind::Bullet => "bullet".to_owned(),
        ListKind::Ordered => "ordered".to_owned(),
    }
}

/// The name of an ordered-list delimiter, as executable code.
pub fn delim_name(d: &ListDelim) -> (r: String)
    ensures
        r@ == spec_delim_name(*d),
{
    match d {
        ListDelim::Period => "period".to_owned(),
        ListDelim::Paren => "paren".to_owned(),
    }
}

/// The name of a column alignment, as executable code.
pub fn alignment_name(a: &ColumnAlignment) -> (r: String)
    ensures
        r@ == spec_alignment_name(*a),
{
    match a {
        ColumnAlignment::Unaligned => "none".to_owned(),
        ColumnAlignment::Left => "left".to_owned(),
        ColumnAlignment::Center => "center".to_owned(),
        ColumnAlignment::Right => "right".to_owned(),
    }
}

/// The name of an alert kind, as executable code.
pub fn alert_name(a: &AlertKind) -> (r: String)
    ensures
        r@ == spec_alert_name(*a),
{
    match a {
        AlertKind::Note => "note".to_owned(),
        AlertKind::Tip => "tip".to_owned(),
        AlertKind::Important => "important".to_owned(),
        AlertKind::Warning => "warning".to_owned(),
        AlertKind::Caution => "caution".to_owned(),
    }
}

/// The JSON value of an optional string, as executable code.
fn opt_str_value(s: &Option<String>) -> (r: JsonValue)
    ensures
        r.as_view() == spec_opt_str(*s),
{
    match s {
        Some(s) => JsonValue::Str(s.clone()),
        None => JsonValue::Null,
    }
}

/// The JSON value of an optional marker character, as executable code.
fn opt_char_value(s: &Option<char>) -> (r: JsonValue)
    ensures
        r.as_view() == spec_opt_char(*s),
{
    match s {
        Some(c) => JsonValue::Str(crate::engine::char_to_string(*c)),
        None => JsonValue::Null,
    }
}

/// The JSON array content naming a table's column alignments, in order.
fn alignment_values(alignments: &Vec<ColumnAlignment>) -> (r: Vec<JsonValue>)
    ensures
        elems_view(r@) == spec_alignment_views(alignments@),
{
    let mut r: Vec<JsonValue> = Vec::new();
    let mut i: usize = 0;
    while i < alignments.len()
        invariant
            i <= alignments@.len(),
            elems_view(r@) == spec_alignment_views(alignments@.subrange(0, i as int)),
        decreases alignments@.len() - i,
    {
        r.push(JsonValue::Str(alignment_name(&alignments[i])));
        assert(alignments@.subrange(0, i + 1 as int).drop_last()
            =~= alignments@.subrange(0, i as int));
        assert(spec_alignment_views(alignments@.subrange(0, i + 1 as int))
            =~= spec_alignment_views(alignments@.subrange(0, i as int)).push(
            JsonView::Str(spec_alignment_name(alignments@[i as int]))));
        i = i + 1;
    }
    assert(alignments@.subrange(0, alignments@.len() as int) =~= alignments@);
    r
}

/// Encodes one node kind as its tag and its attribute pairs. Total over
/// the closed enumeration; the match is exhaustive, so a missing kind is
/// a build-time error, never a silent default.
pub fn encode_kind(k: &NodeKind) -> (r: (String, Vec<(String, JsonValue)>))
    ensures
        r.0@ == spec_tag(*k),
        pairs_view(r.1@) == spec_attrs(*k),
{
    let mut attrs: Vec<(String, JsonValue)> = Vec::new();
    let tag: String = match k {
        NodeKind::Document => "document".to_owned(),
        NodeKind::FrontMatter(s) => {
            attrs.push(("value".to_owned(), JsonValue::Str(s.clone())));
            "front_matter".to_owned()
        }
        NodeKind::BlockQuote => "block_quote".to_owned(),
        NodeKind::List(d) => {
            attrs.push(("list_type".to_owned(), JsonValue::Str(list_kind_name(&d.list_kind))));
            attrs.push(("start".to_owned(), JsonValue::UInt(d.start)));
            attrs.push(("tight".to_owned(), JsonValue::Bool(d.tight)));
            attrs.push(("delimiter".to_owned(), JsonValue::Str(delim_name(&d.delimiter))));
            "list".to_owned()
        }
        NodeKind::Item(d) => {
            attrs.push(("list_type".to_owned(), JsonValue::Str(list_kind_name(&d.list_kind))));
            attrs.push(("start".to_owned(), JsonValue::UInt(d.start)));
            attrs.push(("tight".to_owned(), JsonValue::Bool(d.tight)));
            "item".to_owned()
        }
        NodeKind::DescriptionList => "description_list".to_owned(),
        NodeKind::DescriptionItem => "description_item".to_owned(),
        NodeKind::DescriptionTerm => "description_term".to_owned(),
        NodeKind::DescriptionDetails => "description_details".to_owned(),
        NodeKind::CodeBlock(d) => {
            attrs.push(("fenced".to_owned(), JsonValue::Bool(d.fenced)));
            attrs.push(("info".to_owned(), JsonValue::Str(d.info.clone())));
            attrs.push(("literal".to_owned(), JsonValue::Str(d.literal.clone())));
            "code_block".to_owned()
        }
        NodeKind::HtmlBlock(d) => {
            attrs.push(("block_type".to_owned(), JsonValue::UInt(d.block_type as u64)));
            attrs.push(("literal".to_owned(), JsonValue::Str(d.literal.clone())));
            "html_block".to_owned()
        }
        NodeKind::Paragraph => "paragraph".to_owned(),
        NodeKind::Heading(d) => {
            attrs.push(("level".to_owned(), JsonValue::UInt(d.level as u64)));
            attrs.push(("setext".to_owned(), JsonValue::Bool(d.setext)));
            "heading".to_owned()
        }
        NodeKind::ThematicBreak => "thematic_break".to_owned(),
        NodeKind::FootnoteDefinition(name) => {
            attrs.push(("name".to_owned(), JsonValue::Str(name.clone())));
            "footnote_definition".to_owned()
        }
        NodeKind::Table(d) => {
            attrs.push(("alignments".to_owned(), JsonValue::Arr(alignment_values(&d.alignments))));
            attrs.push(("num_columns".to_owned(), JsonValue::UInt(d.num_columns)));
            attrs.push(("num_rows".to_owned(), JsonValue::UInt(d.num_rows)));
            "table".to_owned()
        }
        NodeKind::TableRow(header) => {
            attrs.push(("header".to_owned(), JsonValue::Bool(*header)));
            "table_row".to_owned()
        }
        NodeKind::TableCell => "table_cell".to_owned(),
        NodeKind::Text(s) => {
            attrs.push(("value".to_owned(), JsonValue::Str(s.clone())));
            "text".to_owned()
        }
        NodeKind::TaskItem(symbol) => {
            attrs.push(("symbol".to_owned(), opt_char_value(symbol)));
            "task_item".to_owned()
        }
        NodeKind::SoftBreak => "softbreak".to_owned(),
        NodeKind::LineBreak => "linebreak".to_owned(),
        NodeKind::Code(literal) => {
            attrs.push(("literal".to_owned(), JsonValue::Str(literal.clone())));
            "code".to_owned()
        }
        NodeKind::HtmlInline(s) => {
            attrs.push(("value".to_owned(), JsonValue::Str(s.clone())));
            "html_inline".to_owned()
        }
        NodeKind::Raw(s) => {
            attrs.push(("value".to_owned(), JsonValue::Str(s.clone())));
            "raw".to_owned()
        }
        NodeKind::Emph => "emph".to_owned(),
        NodeKind::Strong => "strong".to_owned(),
        NodeKind::Strikethrough => "strikethrough".to_owned(),
        NodeKind::Highlight => "highlight".to_owned(),
        NodeKind::Insert => "insert".to_owned(),
        NodeKind::Superscript => "superscript".to_owned(),
        NodeKind::Link(d) => {
            attrs.push(("url".to_owned(), JsonValue::Str(d.url.clone())));
            attrs.push(("title".to_owned(), JsonValue::Str(d.title.clone())));
            "link".to_owned()
        }
        NodeKind::Image(d) => {
            attrs.push(("url".to_owned(), JsonValue::Str(d.url.clone())));
            attrs.push(("title".to_owned(), JsonValue::Str(d.title.clone())));
            "image".to_owned()
        }
        NodeKind::FootnoteReference(d) => {
            attrs.push(("name".to_owned(), JsonValue::Str(d.name.clone())));
            attrs.push(("ref_num".to_owned(), JsonValue::UInt(d.ref_num as u64)));
            attrs.push(("ix".to_owned(), JsonValue::UInt(d.ix as u64)));
            "footnote_reference".to_owned()
        }
        NodeKind::ShortCode(d) => {
            attrs.push(("code".to_owned(), JsonValue::Str(d.code.clone())));
            attrs.push(("emoji".to_owned(), JsonValue::Str(d.emoji.clone())));
            "shortcode".to_owned()
        }
        NodeKind::Math(d) => {
            attrs.push(("dollar_math".to_owned(), JsonValue::Bool(d.dollar_math)));
            attrs.push(("display_math".to_owned(), JsonValue::Bool(d.display_math)));
            attrs.push(("literal".to_owned(), JsonValue::Str(d.literal.clone())));
            "math".to_owned()
        }
        NodeKind::MultilineBlockQuote => "multiline_block_quote".to_owned(),
        NodeKind::Escaped => "escaped".to_owned(),
        NodeKind::WikiLink(url) => {
            attrs.push(("url".to_owned(), JsonValue::Str(url.clone())));
            "wikilink".to_owned()
        }
        NodeKind::Underline => "underline".to_owned(),
        NodeKind::Subscript => "subscript".to_owned(),
        NodeKind::SpoileredText => "spoilered_text".to_owned(),
        NodeKind::EscapedTag(s) => {
            attrs.push(("value".to_owned(), JsonValue::Str(s.clone())));
            "escaped_tag".to_owned()
        }
        NodeKind::Alert(d) => {
            attrs.push(("alert_type".to_owned(), JsonValue::Str(alert_name(&d.alert_kind))));
            attrs.push(("title".to_owned(), opt_str_value(&d.title)));
            "alert".to_owned()
        }
        NodeKind::Subtext => "subtext".to_owned(),
        NodeKind::BlockDirective => "block_directive".to_owned(),
    };
    proof {
        assert(pairs_view(attrs@) =~= spec_attrs(*k));
    }
    (tag, attrs)
}

} // verus!
