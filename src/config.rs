use vstd::prelude::*;

use crate::chars::{box_drawing_glyphs, Chars};

verus! {

/// The display style to use when rendering diagnostics.
#[derive(Clone, Copy, Debug, PartialEq, Eq, Structural)]
pub enum DisplayStyle {
    /// Output a richly formatted diagnostic, with source code previews.
    Rich,
    /// Output a condensed diagnostic, with a line number, severity, message and notes (if any).
    Medium,
    /// Output a short diagnostic, with a line number, severity, and message.
    Short,
}

/// Configures how a diagnostic is rendered.
#[derive(Clone, Debug)]
pub struct Config {
    /// The display style to use when rendering diagnostics.
    /// Defaults to: [`DisplayStyle::Rich`].
    pub display_style: DisplayStyle,
    /// Column width of tabs.
    /// Defaults to: `4`.
    pub tab_width: usize,
    /// Characters to use when rendering the diagnostic.
    pub chars: Chars,
    /// The minimum number of lines to be shown after the line on which a multiline label begins.
    /// Defaults to: `3`.
    pub start_context_lines: usize,
    /// The minimum number of lines to be shown before the line on which a multiline label ends.
    /// Defaults to: `1`.
    pub end_context_lines: usize,
    /// The minimum number of lines before a label that should be included for context.
    /// Defaults to: `0`.
    pub before_label_lines: usize,
    /// The minimum number of lines after a label that should be included for context.
    /// Defaults to: `0`.
    pub after_label_lines: usize,
}

impl Default for Config {
    fn default() -> (r: Config)
        ensures
            r.display_style == DisplayStyle::Rich,
            r.tab_width == 4,
            r.chars@ == box_drawing_glyphs(),
            r.start_context_lines == 3,
            r.end_context_lines == 1,
            r.before_label_lines == 0,
            r.after_label_lines == 0,
    {
        Config {
            display_style: DisplayStyle::Rich,
            tab_width: 4,
            chars: Chars::default(),
            start_context_lines: 3,
            end_context_lines: 1,
            before_label_lines: 0,
            after_label_lines: 0,
        }
    }
}

} // verus!
