//! The boundary to the external Markdown engine, the JSON serializer and
//! the one std function vstd leaves unspecified. Every item here is
//! trusted: its contract states what the named external function is
//! documented to do, and nothing inside is re-derived.

use vstd::prelude::*;
use comrak::nodes::NodeValue;
use crate::config::{Configuration, ConfigurationView};
use crate::json::{JsonValue, JsonView};
use crate::node::{
    AlertData, AlertKind, CodeBlockData, ColumnAlignment, FootnoteRefData, HeadingData,
    HtmlBlockData, LinkData, ListData, ListDelim, ListKind, MathData, MdNode, NodeKind,
    ShortCodeData, TableData,
};

verus! {

#[verifier::external_type_specification]
#[verifier::external_body]
pub struct ExOptions<'c>(comrak::Options<'c>);

#[verifier::external_type_specification]
#[verifier::external_body]
pub struct ExNodeValue(comrak::nodes::NodeValue);

#[verifier::external_type_specification]
#[verifier::external_body]
pub struct ExNodeList(comrak::nodes::NodeList);

#[verifier::external_type_specification]
#[verifier::external_body]
pub struct ExNodeTable(comrak::nodes::NodeTable);

#[verifier::external_type_specification]
#[verifier::external_body]
pub struct ExAlertType(comrak::nodes::AlertType);

#[verifier::external_type_specification]
#[verifier::external_body]
pub struct ExAst(comrak::nodes::Ast);

#[verifier::external_type_specification]
#[verifier::external_body]
#[verifier::reject_recursive_types(T)]
pub struct ExRefCell<T: ?Sized>(core::cell::RefCell<T>);

#[verifier::external_type_specification]
#[verifier::external_body]
#[verifier::reject_recursive_types(T)]
pub struct ExArenaNode<'a, T: 'a>(comrak::arena_tree::Node<'a, T>);

#[verifier::external_type_specification]
#[verifier::external_body]
pub struct ExSerdeValue(serde_json::Value);

/// Whether `out` is a rendering the external engine can return for the
/// given text under the given configuration. The engine writes a code
/// block's attributes in hash-map iteration order, so more than one text
/// can stand in this relation for one input; every render call returns
/// one of them, and which toggles were set decides what they contain.
pub uninterp spec fn is_engine_render(input: Seq<char>, cfg: ConfigurationView, out: Seq<char>) -> bool;

/// The document tree the external parser produces for the given text under
/// the given configuration, kind for kind and field for field. The parser
/// is deterministic, so the result is a function of the two arguments alone.
pub uninterp spec fn parsed_doc_of(input: Seq<char>, cfg: ConfigurationView) -> MdNode;

/// The JSON text the external serializer produces for the given JSON value.
/// The serializer is deterministic, so the result is a function of the
/// value alone.
pub uninterp spec fn json_text_of(v: JsonView) -> Seq<char>;

/// Relies on the pub render fields of comrak::Options and on the
/// builder of comrak::options::Render: starts from a default render
/// record with the raw-HTML passthrough toggle applied, then copies the
/// remaining render toggles over, field for field.
#[verifier::external_body]
fn apply_render_config(o: &mut comrak::Options<'static>, cfg: &Configuration) {
    o.render = comrak::options::Render::builder().maybe_unsafe(Some(cfg.render_raw_html)).build();
    o.render.hardbreaks = cfg.hardbreaks;
    o.render.full_info_string = cfg.full_info_string;
    o.render.github_pre_lang = cfg.github_pre_lang;
    o.render.gfm_quirks = cfg.gfm_quirks;
    o.render.tasklist_classes = cfg.tasklist_classes;
}

/// Relies on the pub parse fields of comrak::Options: copies this
/// library's parse toggles over, field for field.
#[verifier::external_body]
fn apply_parse_config(o: &mut comrak::Options<'static>, cfg: &Configuration) {
    o.parse.relaxed_tasklist_matching = cfg.relaxed_tasklist_matching;
    o.parse.relaxed_autolinks = cfg.relaxed_autolinks;
    o.parse.default_info_string = cfg.default_info_string.clone();
}

/// Relies on the pub extension fields of comrak::Options: copies this
/// library's extension toggles over, field for field.
#[verifier::external_body]
fn apply_extension_config(o: &mut comrak::Options<'static>, cfg: &Configuration) {
    o.extension.strikethrough = cfg.strikethrough;
    o.extension.tagfilter = cfg.tagfilter;
    o.extension.table = cfg.table;
    o.extension.autolink = cfg.autolink;
    o.extension.tasklist = cfg.tasklist;
    o.extension.superscript = cfg.superscript;
    o.extension.footnotes = cfg.footnotes;
    o.extension.inline_footnotes = cfg.inline_footnotes;
    o.extension.multiline_block_quotes = cfg.multiline_block_quotes;
    o.extension.math_code = cfg.math_code;
}

/// Relies on the pub extension fields of comrak::Options: copies the rest
/// of this library's extension toggles over, field for field.
#[verifier::external_body]
fn apply_extension_config_rest(o: &mut comrak::Options<'static>, cfg: &Configuration) {
    o.extension.underline = cfg.underline;
    o.extension.subscript = cfg.subscript;
    o.extension.spoiler = cfg.spoiler;
    o.extension.greentext = cfg.greentext;
    o.extension.alerts = cfg.alerts;
    o.extension.cjk_friendly_emphasis = cfg.cjk_friendly_emphasis;
    o.extension.subtext = cfg.subtext;
    o.extension.highlight = cfg.highlight;
    o.extension.shortcodes = cfg.shortcodes;
}

/// Relies on comrak::Options::default: starts from the engine's defaults,
/// then copies every toggle of this library's configuration over.
#[verifier::external_body]
fn engine_options(cfg: &Configuration) -> comrak::Options<'static> {
    let mut o = comrak::Options::default();
    apply_render_config(&mut o, cfg);
    apply_parse_config(&mut o, cfg);
    apply_extension_config(&mut o, cfg);
    apply_extension_config_rest(&mut o, cfg);
    o
}

/// Relies on comrak::nodes::NodeList: moves the list fields this library
/// reports, variant for variant and field for field.
#[verifier::external_body]
fn list_data(nl: &comrak::nodes::NodeList) -> ListData {
    ListData {
        list_kind: match nl.list_type {
            comrak::nodes::ListType::Bullet => ListKind::Bullet,
            comrak::nodes::ListType::Ordered => ListKind::Ordered,
        },
        start: nl.start as u64,
        tight: nl.tight,
        delimiter: match nl.delimiter {
            comrak::nodes::ListDelimType::Period => ListDelim::Period,
            comrak::nodes::ListDelimType::Paren => ListDelim::Paren,
        },
    }
}

/// Relies on comrak::nodes::NodeTable: moves the table fields this library
/// reports, with each alignment mapped variant for variant.
#[verifier::external_body]
fn table_data(t: &comrak::nodes::NodeTable) -> TableData {
    let mut alignments: Vec<ColumnAlignment> = Vec::new();
    for a in t.alignments.iter() {
        alignments.push(match a {
            comrak::nodes::TableAlignment::None => ColumnAlignment::Unaligned,
            comrak::nodes::TableAlignment::Left => ColumnAlignment::Left,
            comrak::nodes::TableAlignment::Center => ColumnAlignment::Center,
            comrak::nodes::TableAlignment::Right => ColumnAlignment::Right,
        });
    }
    TableData { alignments, num_columns: t.num_columns as u64, num_rows: t.num_rows as u64 }
}

/// Relies on comrak::nodes::AlertType: maps each alert category, variant
/// for variant.
#[verifier::external_body]
fn alert_kind(a: &comrak::nodes::AlertType) -> AlertKind {
    match a {
        comrak::nodes::AlertType::Note => AlertKind::Note,
        comrak::nodes::AlertType::Tip => AlertKind::Tip,
        comrak::nodes::AlertType::Important => AlertKind::Important,
        comrak::nodes::AlertType::Warning => AlertKind::Warning,
        comrak::nodes::AlertType::Caution => AlertKind::Caution,
    }
}

/// Relies on comrak::nodes::NodeValue: maps the engine's closed node
/// enumeration to this library's kinds, one arm per variant, moving
/// fields only. Marker kinds first; the rest is passed down the chain.
#[verifier::external_body]
fn convert_value(v: &comrak::nodes::NodeValue) -> NodeKind {
    match v {
        NodeValue::Document => NodeKind::Document,
        NodeValue::BlockQuote => NodeKind::BlockQuote,
        NodeValue::Paragraph => NodeKind::Paragraph,
        NodeValue::ThematicBreak => NodeKind::ThematicBreak,
        NodeValue::TableCell => NodeKind::TableCell,
        NodeValue::SoftBreak => NodeKind::SoftBreak,
        NodeValue::LineBreak => NodeKind::LineBreak,
        NodeValue::Emph => NodeKind::Emph,
        NodeValue::Strong => NodeKind::Strong,
        _ => convert_value_spans(v),
    }
}

/// Continues the variant map of convert_value: the span marker kinds.
#[verifier::external_body]
fn convert_value_spans(v: &comrak::nodes::NodeValue) -> NodeKind {
    match v {
        NodeValue::Strikethrough => NodeKind::Strikethrough,
        NodeValue::Highlight => NodeKind::Highlight,
        NodeValue::Insert => NodeKind::Insert,
        NodeValue::Superscript => NodeKind::Superscript,
        NodeValue::Underline => NodeKind::Underline,
        NodeValue::Subscript => NodeKind::Subscript,
        NodeValue::SpoileredText => NodeKind::SpoileredText,
        NodeValue::Escaped => NodeKind::Escaped,
        NodeValue::Subtext => NodeKind::Subtext,
        _ => convert_value_blocks(v),
    }
}

/// Continues the variant map of convert_value: container blocks and plain
/// text kinds.
#[verifier::external_body]
fn convert_value_blocks(v: &comrak::nodes::NodeValue) -> NodeKind {
    match v {
        NodeValue::MultilineBlockQuote(_) => NodeKind::MultilineBlockQuote,
        NodeValue::DescriptionList => NodeKind::DescriptionList,
        NodeValue::DescriptionItem(_) => NodeKind::DescriptionItem,
        NodeValue::DescriptionTerm => NodeKind::DescriptionTerm,
        NodeValue::DescriptionDetails => NodeKind::DescriptionDetails,
        NodeValue::TableRow(header) => NodeKind::TableRow(*header),
        NodeValue::FrontMatter(s) => NodeKind::FrontMatter(s.clone()),
        NodeValue::Text(s) => NodeKind::Text(s.as_ref().to_owned()),
        NodeValue::HtmlInline(s) => NodeKind::HtmlInline(s.clone()),
        _ => convert_value_literals(v),
    }
}

/// Continues the variant map of convert_value: kinds holding one literal,
/// and lists, headings and task items.
#[verifier::external_body]
fn convert_value_literals(v: &comrak::nodes::NodeValue) -> NodeKind {
    match v {
        NodeValue::Raw(s) => NodeKind::Raw(s.clone()),
        NodeValue::EscapedTag(s) => NodeKind::EscapedTag((*s).to_owned()),
        NodeValue::Code(c) => NodeKind::Code(c.literal.clone()),
        NodeValue::FootnoteDefinition(fd) => NodeKind::FootnoteDefinition(fd.name.clone()),
        NodeValue::WikiLink(wl) => NodeKind::WikiLink(wl.url.clone()),
        NodeValue::Heading(h) => NodeKind::Heading(HeadingData { level: h.level, setext: h.setext }),
        NodeValue::TaskItem(ti) => NodeKind::TaskItem(ti.symbol),
        NodeValue::List(nl) => NodeKind::List(list_data(nl)),
        NodeValue::Item(nl) => NodeKind::Item(list_data(nl)),
        _ => convert_value_links(v),
    }
}

/// Continues the variant map of convert_value: tables, links, images,
/// alerts and raw HTML blocks.
#[verifier::external_body]
fn convert_value_links(v: &comrak::nodes::NodeValue) -> NodeKind {
    match v {
        NodeValue::Table(t) => NodeKind::Table(table_data(t)),
        NodeValue::Link(l) => NodeKind::Link(LinkData { url: l.url.clone(), title: l.title.clone() }),
        NodeValue::Image(l) => NodeKind::Image(LinkData { url: l.url.clone(), title: l.title.clone() }),
        NodeValue::Alert(a) => NodeKind::Alert(AlertData { alert_kind: alert_kind(&a.alert_type), title: a.title.clone() }),
        NodeValue::HtmlBlock(hb) => NodeKind::HtmlBlock(HtmlBlockData { block_type: hb.block_type, literal: hb.literal.clone() }),
        _ => convert_value_rest(v),
    }
}

/// Ends the variant map of convert_value. Every variant before this point
/// was taken by the chain above, so under the pinned engine version the
/// last arm is exactly the block directive, which this library reports as
/// a marker kind. An engine upgrade that adds node kinds must extend this
/// chain: the catch-all arms would otherwise tag a new kind as a block
/// directive silently.
#[verifier::external_body]
fn convert_value_rest(v: &comrak::nodes::NodeValue) -> NodeKind {
    match v {
        NodeValue::CodeBlock(cb) => NodeKind::CodeBlock(CodeBlockData { fenced: cb.fenced, info: cb.info.clone(), literal: cb.literal.clone() }),
        NodeValue::FootnoteReference(fr) => NodeKind::FootnoteReference(FootnoteRefData { name: fr.name.clone(), ref_num: fr.ref_num, ix: fr.ix }),
        NodeValue::ShortCode(sc) => NodeKind::ShortCode(ShortCodeData { code: sc.code.clone(), emoji: sc.emoji.clone() }),
        NodeValue::Math(m) => NodeKind::Math(MathData { dollar_math: m.dollar_math, display_math: m.display_math, literal: m.literal.clone() }),
        _ => NodeKind::BlockDirective,
    }
}

/// Relies on comrak::arena_tree::Node: reads each node's value through its
/// data cell and walks its children in document order.
#[verifier::external_body]
fn convert_node<'a>(node: &'a comrak::nodes::AstNode<'a>) -> MdNode {
    let kind = convert_value(&node.data.borrow().value);
    let mut children: Vec<MdNode> = Vec::new();
    for child in node.children() {
        children.push(convert_node(child));
    }
    MdNode { kind, children }
}

/// Relies on char::to_string: returns the string holding exactly that
/// character. vstd gives this std function no specification.
#[verifier::external_body]
pub(crate) fn char_to_string(c: char) -> (r: String)
    ensures
        r@ == seq![c],
{
    c.to_string()
}

/// Relies on comrak::markdown_to_html: renders the text to an HTML
/// fragment under the options built from the configuration, and returns
/// that rendering unmodified. The renderer writes a code block's
/// attributes from hash maps, in their iteration order, so its text is
/// not a function of the arguments: the ensures names the relation of
/// possible renderings, not one text.
#[verifier::external_body]
pub(crate) fn render_markdown(input: &str, cfg: &Configuration) -> (r: String)
    ensures
        is_engine_render(input@, cfg@, r@),
{
    comrak::markdown_to_html(input, &engine_options(cfg))
}

/// Relies on comrak::parse_document: parses the text into a tree whose
/// root node is the document node; deterministic in (text, options).
#[verifier::external_body]
pub(crate) fn parse_markdown(input: &str, cfg: &Configuration) -> (r: MdNode)
    ensures
        r == parsed_doc_of(input@, cfg@),
        r.kind is Document,
{
    let arena = comrak::Arena::new();
    let root = comrak::parse_document(&arena, input, &engine_options(cfg));
    convert_node(root)
}

/// Relies on the constructors of serde_json::Value: builds the serializer's
/// value from this library's JSON value, variant for variant.
#[verifier::external_body]
fn engine_json(v: &JsonValue) -> serde_json::Value {
    match v {
        JsonValue::Null => serde_json::Value::Null,
        JsonValue::Bool(b) => serde_json::Value::Bool(*b),
        JsonValue::UInt(n) => serde_json::Value::from(*n),
        JsonValue::Str(s) => serde_json::Value::String(s.clone()),
        JsonValue::Arr(xs) => serde_json::Value::Array(xs.iter().map(engine_json).collect()),
        JsonValue::Obj(ps) => serde_json::Value::Object(
            ps.iter().map(|p| (p.0.clone(), engine_json(&p.1))).collect(),
        ),
    }
}

/// Relies on serde_json::to_string: serializing a value whose objects are
/// string-keyed always succeeds, and the text is a function of the value
/// alone.
#[verifier::external_body]
pub(crate) fn render_json(v: &JsonValue) -> (r: String)
    ensures
        r@ == json_text_of(v@),
{
    serde_json::to_string(&engine_json(v)).unwrap()
}

} // verus!
