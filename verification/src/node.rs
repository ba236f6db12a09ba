//! The document tree that the parsing engine hands back: a closed set of
//! node kinds, each with its plain attribute fields, and ordered children.

use vstd::prelude::*;

verus! {

/// Whether a list is unordered (bullet) or ordered.
#[derive(Clone, Copy, PartialEq, Eq, Structural, Debug)]
pub enum ListKind {
    Bullet,
    Ordered,
}

/// The delimiter after each number of an ordered list.
#[derive(Clone, Copy, PartialEq, Eq, Structural, Debug)]
pub enum ListDelim {
    Period,
    Paren,
}

/// Alignment of one table column.
#[derive(Clone, Copy, PartialEq, Eq, Structural, Debug)]
pub enum ColumnAlignment {
    Unaligned,
    Left,
    Center,
    Right,
}

/// The category of a GitHub-style alert block.
#[derive(Clone, Copy, PartialEq, Eq, Structural, Debug)]
pub enum AlertKind {
    Note,
    Tip,
    Important,
    Warning,
    Caution,
}

/// Attributes of a list or a list item.
#[derive(Clone, Debug)]
pub struct ListData {
    pub list_kind: ListKind,
    pub start: u64,
    pub tight: bool,
    pub delimiter: ListDelim,
}

/// Attributes of a code block.
#[derive(Clone, Debug)]
pub struct CodeBlockData {
    pub fenced: bool,
    pub info: String,
    pub literal: String,
}

/// Attributes of a raw HTML block.
#[derive(Clone, Debug)]
pub struct HtmlBlockData {
    pub block_type: u8,
    pub literal: String,
}

/// Attributes of a heading.
#[derive(Clone, Copy, Debug)]
pub struct HeadingData {
    pub level: u8,
    pub setext: bool,
}

/// Attributes of a table.
#[derive(Clone, Debug)]
pub struct TableData {
    pub alignments: Vec<ColumnAlignment>,
    pub num_columns: u64,
    pub num_rows: u64,
}

/// Attributes of a link or an image.
#[derive(Clone, Debug)]
pub struct LinkData {
    pub url: String,
    pub title: String,
}

/// Attributes of a footnote reference.
#[derive(Clone, Debug)]
pub struct FootnoteRefData {
    pub name: String,
    pub ref_num: u32,
    pub ix: u32,
}

/// Attributes of an emoji shortcode.
#[derive(Clone, Debug)]
pub struct ShortCodeData {
    pub code: String,
    pub emoji: String,
}

/// Attributes of a math span.
#[derive(Clone, Debug)]
pub struct MathData {
    pub dollar_math: bool,
    pub display_math: bool,
    pub literal: String,
}

/// Attributes of an alert block.
#[derive(Clone, Debug)]
pub struct AlertData {
    pub alert_kind: AlertKind,
    pub title: Option<String>,
}

/// The closed enumeration of node kinds, with each kind's attributes.
#[derive(Clone, Debug)]
pub enum NodeKind {
    Document,
    FrontMatter(String),
    BlockQuote,
    List(ListData),
    Item(ListData),
    DescriptionList,
    DescriptionItem,
    DescriptionTerm,
    DescriptionDetails,
    CodeBlock(CodeBlockData),
    HtmlBlock(HtmlBlockData),
    Paragraph,
    Heading(HeadingData),
    ThematicBreak,
    FootnoteDefinition(String),
    Table(TableData),
    TableRow(bool),
    TableCell,
    Text(String),
    TaskItem(Option<char>),
    SoftBreak,
    LineBreak,
    Code(String),
    HtmlInline(String),
    Raw(String),
    Emph,
    Strong,
    Strikethrough,
    Highlight,
    Insert,
    Superscript,
    Link(LinkData),
    Image(LinkData),
    FootnoteReference(FootnoteRefData),
    ShortCode(ShortCodeData),
    Math(MathData),
    MultilineBlockQuote,
    Escaped,
    WikiLink(String),
    Underline,
    Subscript,
    SpoileredText,
    EscapedTag(String),
    Alert(AlertData),
    Subtext,
    BlockDirective,
}

/// One node of the document tree: a kind and the ordered children.
pub struct MdNode {
    pub kind: NodeKind,
    pub children: Vec<MdNode>,
}

} // verus!
