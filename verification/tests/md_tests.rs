use mdast::{markdown_to_ast, markdown_to_html};
use serde_json::Value;

#[test]
fn basic_paragraph() {
    let result = markdown_to_html("Hello, world!");
    assert_eq!(result, "<p>Hello, world!</p>\n");
}

#[test]
fn heading() {
    let result = markdown_to_html("# Title");
    assert_eq!(result, "<h1>Title</h1>\n");
}

#[test]
fn strikethrough() {
    let result = markdown_to_html("~~deleted~~");
    assert_eq!(result, "<p><del>deleted</del></p>\n");
}

#[test]
fn tasklist() {
    let result = markdown_to_html("- [x] done\n- [ ] todo");
    assert!(result.contains("checked"));
    assert!(result.contains("type=\"checkbox\""));
}

#[test]
fn hardbreaks() {
    let result = markdown_to_html("line1\nline2");
    assert!(result.contains("<br"));
}

#[test]
fn code_block_default_info_string() {
    let result = markdown_to_html("```\ncode\n```");
    assert!(result.contains("lang=\"text\""));
}

#[test]
fn ast_basic() {
    let result = markdown_to_ast("Hello");
    let v: Value = serde_json::from_str(&result).unwrap();
    assert_eq!(v["type"], "document");
    assert_eq!(v["children"][0]["type"], "paragraph");
    assert_eq!(v["children"][0]["children"][0]["type"], "text");
    assert_eq!(v["children"][0]["children"][0]["value"], "Hello");
}

#[test]
fn ast_heading() {
    let result = markdown_to_ast("## Sub");
    let v: Value = serde_json::from_str(&result).unwrap();
    let heading = &v["children"][0];
    assert_eq!(heading["type"], "heading");
    assert_eq!(heading["level"], 2);
    assert_eq!(heading["children"][0]["value"], "Sub");
}

#[test]
fn ast_link() {
    let result = markdown_to_ast("[text](https://example.com)");
    let v: Value = serde_json::from_str(&result).unwrap();
    let link = &v["children"][0]["children"][0];
    assert_eq!(link["type"], "link");
    assert_eq!(link["url"], "https://example.com");
    assert_eq!(link["children"][0]["value"], "text");
}

#[test]
fn ast_code_block() {
    let result = markdown_to_ast("```rust\nfn main() {}\n```");
    let v: Value = serde_json::from_str(&result).unwrap();
    let cb = &v["children"][0];
    assert_eq!(cb["type"], "code_block");
    assert_eq!(cb["info"], "rust");
    assert_eq!(cb["literal"], "fn main() {}\n");
}

#[test]
fn ast_code_block_is_fenced() {
    let result = markdown_to_ast("```rust\nfn main() {}\n```");
    let v: Value = serde_json::from_str(&result).unwrap();
    assert_eq!(v["children"][0]["fenced"], true);
}

#[test]
fn ast_top_level_is_document() {
    for input in ["", "Hello", "# Title", "- a\n- b", "~~x~~"] {
        let v: Value = serde_json::from_str(&markdown_to_ast(input)).unwrap();
        assert_eq!(v["type"], "document");
    }
}

#[test]
fn ast_empty_document_has_no_children() {
    let result = markdown_to_ast("");
    assert_eq!(result, "{\"type\":\"document\"}");
}

#[test]
fn ast_children_present_iff_nonempty() {
    let v: Value = serde_json::from_str(&markdown_to_ast("Hello")).unwrap();
    let children = v["children"].as_array().unwrap();
    assert!(!children.is_empty());
    let text = &children[0]["children"][0];
    assert_eq!(text["type"], "text");
    assert!(text.get("children").is_none());
}

#[test]
fn every_object_has_type_key() {
    fn walk(v: &Value) {
        let obj = v.as_object().unwrap();
        assert!(obj.contains_key("type"));
        if let Some(children) = obj.get("children") {
            let arr = children.as_array().unwrap();
            assert!(!arr.is_empty());
            for child in arr {
                walk(child);
            }
        }
    }
    for input in ["", "# H\n\npara *em* **strong**", "- [x] a\n- [ ] b", "> quote"] {
        let v: Value = serde_json::from_str(&markdown_to_ast(input)).unwrap();
        walk(&v);
    }
}

#[test]
fn html_deterministic() {
    let input = "# Title\n\nsome *text* with [a link](https://example.com)";
    assert_eq!(markdown_to_html(input), markdown_to_html(input));
}

#[test]
fn ast_deterministic() {
    let input = "# Title\n\nsome *text* with [a link](https://example.com)";
    assert_eq!(markdown_to_ast(input), markdown_to_ast(input));
}

#[test]
fn ast_heading_title_shape() {
    let v: Value = serde_json::from_str(&markdown_to_ast("# Title")).unwrap();
    let heading = &v["children"][0];
    assert_eq!(heading["type"], "heading");
    assert_eq!(heading["level"], 1);
    assert_eq!(heading["setext"], false);
    assert_eq!(heading["children"][0]["type"], "text");
    assert_eq!(heading["children"][0]["value"], "Title");
}

#[test]
fn ast_list_attributes() {
    let v: Value = serde_json::from_str(&markdown_to_ast("3. a\n4. b")).unwrap();
    let list = &v["children"][0];
    assert_eq!(list["type"], "list");
    assert_eq!(list["list_type"], "ordered");
    assert_eq!(list["start"], 3);
    assert_eq!(list["delimiter"], "period");
    let item = &list["children"][0];
    assert_eq!(item["type"], "item");
    assert_eq!(item["list_type"], "ordered");
}

#[test]
fn ast_task_item_symbol() {
    let v: Value = serde_json::from_str(&markdown_to_ast("- [x] done\n- [ ] todo")).unwrap();
    let items = v["children"][0]["children"].as_array().unwrap();
    assert_eq!(items[0]["type"], "task_item");
    assert_eq!(items[0]["symbol"], "x");
    assert_eq!(items[1]["type"], "task_item");
    assert!(items[1]["symbol"].is_null());
}

#[test]
fn ast_table_attributes() {
    let input = "| a | b |\n|:--|--:|\n| 1 | 2 |";
    let v: Value = serde_json::from_str(&markdown_to_ast(input)).unwrap();
    let table = &v["children"][0];
    assert_eq!(table["type"], "table");
    assert_eq!(table["num_columns"], 2);
    assert_eq!(table["alignments"][0], "left");
    assert_eq!(table["alignments"][1], "right");
    let row = &table["children"][0];
    assert_eq!(row["type"], "table_row");
    assert_eq!(row["header"], true);
}

#[test]
fn ast_alert_attributes() {
    let input = "> [!NOTE]\n> useful";
    let v: Value = serde_json::from_str(&markdown_to_ast(input)).unwrap();
    let alert = &v["children"][0];
    assert_eq!(alert["type"], "alert");
    assert_eq!(alert["alert_type"], "note");
    assert!(alert["title"].is_null());
}

#[test]
fn ast_footnote_reference() {
    let input = "body[^1]\n\n[^1]: the note";
    let v: Value = serde_json::from_str(&markdown_to_ast(input)).unwrap();
    let text = serde_json::to_string(&v).unwrap();
    assert!(text.contains("\"type\":\"footnote_reference\""));
    assert!(text.contains("\"type\":\"footnote_definition\""));
    assert!(text.contains("\"name\":\"1\""));
}

#[test]
fn ast_shortcode_emoji() {
    let v: Value = serde_json::from_str(&markdown_to_ast("hi :rabbit:")).unwrap();
    let text = serde_json::to_string(&v).unwrap();
    assert!(text.contains("\"type\":\"shortcode\""));
    assert!(text.contains("\"code\":\"rabbit\""));
}

#[test]
fn html_raw_passthrough() {
    let result = markdown_to_html("before\n\n<div>kept</div>\n\nafter");
    assert!(result.contains("<div>kept</div>"));
}

#[test]
fn html_strikethrough_contains_del() {
    let result = markdown_to_html("~~deleted~~");
    assert!(result.contains("<del>deleted</del>"));
}

#[test]
fn configuration_is_fixed() {
    let cfg = mdast::config::build_configuration();
    assert!(cfg.hardbreaks);
    assert!(cfg.render_raw_html);
    assert!(cfg.tasklist_classes);
    assert!(cfg.relaxed_tasklist_matching);
    assert!(cfg.relaxed_autolinks);
    assert_eq!(cfg.default_info_string.as_deref(), Some("text"));
    assert!(cfg.strikethrough && cfg.tagfilter && cfg.table && cfg.autolink && cfg.tasklist);
    assert!(cfg.superscript && cfg.footnotes && cfg.inline_footnotes);
    assert!(cfg.multiline_block_quotes && cfg.math_code && cfg.underline && cfg.subscript);
    assert!(cfg.spoiler && cfg.greentext && cfg.alerts && cfg.cjk_friendly_emphasis);
    assert!(cfg.subtext && cfg.highlight && cfg.shortcodes);
}

#[test]
fn ast_math_code_span() {
    let v: Value = serde_json::from_str(&markdown_to_ast("math $`1+2`$ span")).unwrap();
    let text = serde_json::to_string(&v).unwrap();
    assert!(text.contains("\"type\":\"math\""));
    assert!(text.contains("\"literal\":\"1+2\""));
}

#[test]
fn html_superscript() {
    let result = markdown_to_html("e = mc^2^");
    assert!(result.contains("<sup>2</sup>"));
}

#[test]
fn html_spoiler() {
    let result = markdown_to_html("a ||hidden|| word");
    assert!(result.contains("spoiler"));
}
