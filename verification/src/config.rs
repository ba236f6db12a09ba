//! The configuration registry: one immutable record of parser and render
//! toggles, built once per logical request and shared by the HTML path and
//! the tree path of that request.

use vstd::prelude::*;

verus! {

/// The full set of parser/render toggles. The same value must be handed
/// to the HTML render call and to the tree extraction call of one logical
/// request, or the two outputs may recognize different syntax.
pub struct Configuration {
    // Render toggles.
    pub hardbreaks: bool,
    pub full_info_string: bool,
    pub github_pre_lang: bool,
    pub gfm_quirks: bool,
    pub render_raw_html: bool,
    pub tasklist_classes: bool,
    // Parse toggles.
    pub relaxed_tasklist_matching: bool,
    pub relaxed_autolinks: bool,
    pub default_info_string: Option<String>,
    // Extension toggles.
    pub strikethrough: bool,
    pub tagfilter: bool,
    pub table: bool,
    pub autolink: bool,
    pub tasklist: bool,
    pub superscript: bool,
    pub footnotes: bool,
    pub inline_footnotes: bool,
    pub multiline_block_quotes: bool,
    pub math_code: bool,
    pub underline: bool,
    pub subscript: bool,
    pub spoiler: bool,
    pub greentext: bool,
    pub alerts: bool,
    pub cjk_friendly_emphasis: bool,
    pub subtext: bool,
    pub highlight: bool,
    pub shortcodes: bool,
}

/// The mathematical view of a configuration: the same toggles, with the
/// default info string as a character sequence.
pub ghost struct ConfigurationView {
    pub hardbreaks: bool,
    pub full_info_string: bool,
    pub github_pre_lang: bool,
    pub gfm_quirks: bool,
    pub render_raw_html: bool,
    pub tasklist_classes: bool,
    pub relaxed_tasklist_matching: bool,
    pub relaxed_autolinks: bool,
    pub default_info_string: Option<Seq<char>>,
    pub strikethrough: bool,
    pub tagfilter: bool,
    pub table: bool,
    pub autolink: bool,
    pub tasklist: bool,
    pub superscript: bool,
    pub footnotes: bool,
    pub inline_footnotes: bool,
    pub multiline_block_quotes: bool,
    pub math_code: bool,
    pub underline: bool,
    pub subscript: bool,
    pub spoiler: bool,
    pub greentext: bool,
    pub alerts: bool,
    pub cjk_friendly_emphasis: bool,
    pub subtext: bool,
    pub highlight: bool,
    pub shortcodes: bool,
}

impl View for Configuration {
    type V = ConfigurationView;

    open spec fn view(&self) -> ConfigurationView {
        ConfigurationView {
            hardbreaks: self.hardbreaks,
            full_info_string: self.full_info_string,
            github_pre_lang: self.github_pre_lang,
            gfm_quirks: self.gfm_quirks,
            render_raw_html: self.render_raw_html,
            tasklist_classes: self.tasklist_classes,
            relaxed_tasklist_matching: self.relaxed_tasklist_matching,
            relaxed_autolinks: self.relaxed_autolinks,
            default_info_string: match &self.default_info_string {
                Some(s) => Some(s@),
                None => None,
            },
            strikethrough: self.strikethrough,
            tagfilter: self.tagfilter,
            table: self.table,
            autolink: self.autolink,
            tasklist: self.tasklist,
            superscript: self.superscript,
            footnotes: self.footnotes,
            inline_footnotes: self.inline_footnotes,
            multiline_block_quotes: self.multiline_block_quotes,
            math_code: self.math_code,
            underline: self.underline,
            subscript: self.subscript,
            spoiler: self.spoiler,
            greentext: self.greentext,
            alerts: self.alerts,
            cjk_friendly_emphasis: self.cjk_friendly_emphasis,
            subtext: self.subtext,
            highlight: self.highlight,
            shortcodes: self.shortcodes,
        }
    }
}

/// The fixed configuration both entry points use: hard line breaks, full
/// info strings, raw HTML passed through, relaxed task list and autolink
/// matching, info string "text" for bare code fences, and every supported
/// extension switched on.
pub open spec fn spec_default_configuration() -> ConfigurationView {
    ConfigurationView {
        hardbreaks: true,
        full_info_string: true,
        github_pre_lang: true,
        gfm_quirks: true,
        render_raw_html: true,
        tasklist_classes: true,
        relaxed_tasklist_matching: true,
        relaxed_autolinks: true,
        default_info_string: Some("text"@),
        strikethrough: true,
        tagfilter: true,
        table: true,
        autolink: true,
        tasklist: true,
        superscript: true,
        footnotes: true,
        inline_footnotes: true,
        multiline_block_quotes: true,
        math_code: true,
        underline: true,
        subscript: true,
        spoiler: true,
        greentext: true,
        alerts: true,
        cjk_friendly_emphasis: true,
        subtext: true,
        highlight: true,
        shortcodes: true,
    }
}

/// Builds the one configuration this library works with. Pure construction;
/// cannot fail.
pub fn build_configuration() -> (r: Configuration)
    ensures
        r@ == spec_default_configuration(),
{
    Configuration {
        hardbreaks: true,
        full_info_string: true,
        github_pre_lang: true,
        gfm_quirks: true,
        render_raw_html: true,
        tasklist_classes: true,
        relaxed_tasklist_matching: true,
        relaxed_autolinks: true,
        default_info_string: Some("text".to_owned()),
        strikethrough: true,
        tagfilter: true,
        table: true,
        autolink: true,
        tasklist: true,
        superscript: true,
        footnotes: true,
        inline_footnotes: true,
        multiline_block_quotes: true,
        math_code: true,
        underline: true,
        subscript: true,
        spoiler: true,
        greentext: true,
        alerts: true,
        cjk_friendly_emphasis: true,
        subtext: true,
        highlight: true,
        shortcodes: true,
    }
}

} // verus!
