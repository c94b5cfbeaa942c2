use vstd::prelude::*;

use crate::diagnostic::{LabelStyle, Severity};
use crate::style::{plain, Color, Style};

verus! {

/// The style of a header at the given color: bold and intense.
pub open spec fn header_style(c: Color) -> Style {
    Style { fg: Some(c), bold: true, intense: true, ..plain() }
}

/// The style of a label at the given color: the color alone.
pub open spec fn label_style(c: Color) -> Style {
    Style { fg: Some(c), ..plain() }
}

/// The accent color of the default palette: cyan on Windows, where blue is
/// hard to read on the usual console background, and blue elsewhere.
pub open spec fn spec_default_accent(windows: bool) -> Color {
    if windows {
        Color::Cyan
    } else {
        Color::Blue
    }
}

/// Styles to use when rendering the diagnostic.
#[derive(Clone, Copy, Debug, PartialEq, Eq, Structural)]
pub struct Styles {
    /// The style to use when rendering bug headers.
    /// Defaults to `fg:red bold intense`.
    pub header_bug: Style,
    /// The style to use when rendering error headers.
    /// Defaults to `fg:red bold intense`.
    pub header_error: Style,
    /// The style to use when rendering warning headers.
    /// Defaults to `fg:yellow bold intense`.
    pub header_warning: Style,
    /// The style to use when rendering note headers.
    /// Defaults to `fg:green bold intense`.
    pub header_note: Style,
    /// The style to use when rendering help headers.
    /// Defaults to `fg:cyan bold intense`.
    pub header_help: Style,
    /// The style to use when the main diagnostic message.
    /// Defaults to `bold intense`.
    pub header_message: Style,
    /// The style to use when rendering bug labels.
    /// Defaults to `fg:red`.
    pub primary_label_bug: Style,
    /// The style to use when rendering error labels.
    /// Defaults to `fg:red`.
    pub primary_label_error: Style,
    /// The style to use when rendering warning labels.
    /// Defaults to `fg:yellow`.
    pub primary_label_warning: Style,
    /// The style to use when rendering note labels.
    /// Defaults to `fg:green`.
    pub primary_label_note: Style,
    /// The style to use when rendering help labels.
    /// Defaults to `fg:cyan`.
    pub primary_label_help: Style,
    /// The style to use when rendering secondary labels.
    /// Defaults `fg:blue` (or `fg:cyan` on windows).
    pub secondary_label: Style,
    /// The style to use when rendering the line numbers.
    /// Defaults `fg:blue` (or `fg:cyan` on windows).
    pub line_number: Style,
    /// The style to use when rendering the source code borders.
    /// Defaults `fg:blue` (or `fg:cyan` on windows).
    pub source_border: Style,
    /// The style to use when rendering the note bullets.
    /// Defaults `fg:blue` (or `fg:cyan` on windows).
    pub note_bullet: Style,
}

impl Styles {
    /// The style of a header at the given severity.
    pub open spec fn spec_header(&self, severity: Severity) -> Style {
        match severity {
            Severity::Bug => self.header_bug,
            Severity::Error => self.header_error,
            Severity::Warning => self.header_warning,
            Severity::Note => self.header_note,
            Severity::Help => self.header_help,
        }
    }

    /// The style of a label: per severity for primary labels, one shared
    /// style for secondary labels.
    pub open spec fn spec_label(&self, severity: Severity, label_style: LabelStyle) -> Style {
        match label_style {
            LabelStyle::Primary => match severity {
                Severity::Bug => self.primary_label_bug,
                Severity::Error => self.primary_label_error,
                Severity::Warning => self.primary_label_warning,
                Severity::Note => self.primary_label_note,
                Severity::Help => self.primary_label_help,
            },
            LabelStyle::Secondary => self.secondary_label,
        }
    }

    /// The palette built from the fixed severity colors and one accent color.
    pub open spec fn spec_with_blue(blue: Color) -> Styles {
        Styles {
            header_bug: header_style(Color::Red),
            header_error: header_style(Color::Red),
            header_warning: header_style(Color::Yellow),
            header_note: header_style(Color::Green),
            header_help: header_style(Color::Cyan),
            header_message: Style { bold: true, intense: true, ..plain() },
            primary_label_bug: label_style(Color::Red),
            primary_label_error: label_style(Color::Red),
            primary_label_warning: label_style(Color::Yellow),
            primary_label_note: label_style(Color::Green),
            primary_label_help: label_style(Color::Cyan),
            secondary_label: label_style(blue),
            line_number: label_style(blue),
            source_border: label_style(blue),
            note_bullet: label_style(blue),
        }
    }

    /// The style used to mark a header at a given severity.
    pub fn header(&self, severity: Severity) -> (r: &Style)
        ensures
            *r == self.spec_header(severity),
    {
        match severity {
            Severity::Bug => &self.header_bug,
            Severity::Error => &self.header_error,
            Severity::Warning => &self.header_warning,
            Severity::Note => &self.header_note,
            Severity::Help => &self.header_help,
        }
    }

    /// The style used for the message of a header.
    pub fn header_message(&self) -> (r: &Style)
        ensures
            *r == self.header_message,
    {
        &self.header_message
    }

    /// The style used for line numbers.
    pub fn line_number(&self) -> (r: &Style)
        ensures
            *r == self.line_number,
    {
        &self.line_number
    }

    /// The style used for note bullets.
    pub fn note_bullet(&self) -> (r: &Style)
        ensures
            *r == self.note_bullet,
    {
        &self.note_bullet
    }

    /// The style used for the borders of source snippets.
    pub fn source_border(&self) -> (r: &Style)
        ensures
            *r == self.source_border,
    {
        &self.source_border
    }

    /// The style used to mark a primary or secondary label at a given severity.
    pub fn label(&self, severity: Severity, label_style: LabelStyle) -> (r: &Style)
        ensures
            *r == self.spec_label(severity, label_style),
    {
        match (label_style, severity) {
            (LabelStyle::Primary, Severity::Bug) => &self.primary_label_bug,
            (LabelStyle::Primary, Severity::Error) => &self.primary_label_error,
            (LabelStyle::Primary, Severity::Warning) => &self.primary_label_warning,
            (LabelStyle::Primary, Severity::Note) => &self.primary_label_note,
            (LabelStyle::Primary, Severity::Help) => &self.primary_label_help,
            (LabelStyle::Secondary, _) => &self.secondary_label,
        }
    }

    /// The palette with the fixed severity colors, and `blue` as the accent
    /// used for secondary labels, line numbers, source borders and note bullets.
    pub fn with_blue(blue: Color) -> (r: Styles)
        ensures
            r == Styles::spec_with_blue(blue),
    {
        let header = Style::new().with_bold(true).with_intense(true);
        Styles {
            header_bug: header.with_fg(Some(Color::Red)),
            header_error: header.with_fg(Some(Color::Red)),
            header_warning: header.with_fg(Some(Color::Yellow)),
            header_note: header.with_fg(Some(Color::Green)),
            header_help: header.with_fg(Some(Color::Cyan)),
            header_message: header,
            primary_label_bug: Style::new().with_fg(Some(Color::Red)),
            primary_label_error: Style::new().with_fg(Some(Color::Red)),
            primary_label_warning: Style::new().with_fg(Some(Color::Yellow)),
            primary_label_note: Style::new().with_fg(Some(Color::Green)),
            primary_label_help: Style::new().with_fg(Some(Color::Cyan)),
            secondary_label: Style::new().with_fg(Some(blue)),
            line_number: Style::new().with_fg(Some(blue)),
            source_border: Style::new().with_fg(Some(blue)),
            note_bullet: Style::new().with_fg(Some(blue)),
        }
    }

    /// The default palette for a platform: [`Styles::with_blue`] with the
    /// accent of [`default_accent`].
    pub fn platform_default(windows: bool) -> (r: Styles)
        ensures
            r == Styles::spec_with_blue(spec_default_accent(windows)),
    {
        Styles::with_blue(default_accent(windows))
    }
}

/// The accent color of the default palette: cyan on Windows, where blue is
/// hard to read on the usual console background, and blue elsewhere.
pub fn default_accent(windows: bool) -> (r: Color)
    ensures
        r == spec_default_accent(windows),
{
    if windows {
        Color::Cyan
    } else {
        Color::Blue
    }
}

/// Every severity has a header style, and bugs and errors share theirs.
pub proof fn lemma_header_bug_is_error(blue: Color)
    ensures
        Styles::spec_with_blue(blue).spec_header(Severity::Bug) == Styles::spec_with_blue(
            blue,
        ).spec_header(Severity::Error),
{
}

/// A secondary label has one style, whatever the severity.
pub proof fn lemma_secondary_label_ignores_severity(styles: Styles, a: Severity, b: Severity)
    ensures
        styles.spec_label(a, LabelStyle::Secondary) == styles.spec_label(b, LabelStyle::Secondary),
{
}

/// A primary label has the color of its severity's header without the header's
/// bold and intense decoration, and two severities other than the pair of bug
/// and error give different primary label styles.
pub proof fn lemma_primary_label_follows_header(blue: Color, a: Severity, b: Severity)
    ensures
        ({
            let s = Styles::spec_with_blue(blue);
            &&& s.spec_label(a, LabelStyle::Primary).fg == s.spec_header(a).fg
            &&& s.spec_header(a).bold && s.spec_header(a).intense
            &&& !s.spec_label(a, LabelStyle::Primary).bold
            &&& !s.spec_label(a, LabelStyle::Primary).intense
            &&& (a != b && !(a == Severity::Bug && b == Severity::Error) && !(a == Severity::Error
                && b == Severity::Bug)) ==> s.spec_label(a, LabelStyle::Primary) != s.spec_label(
                b,
                LabelStyle::Primary,
            )
        }),
{
}

/// Line numbers, source borders and note bullets share one style.
pub proof fn lemma_accents_agree(blue: Color)
    ensures
        Styles::spec_with_blue(blue).line_number == Styles::spec_with_blue(blue).source_border,
        Styles::spec_with_blue(blue).source_border == Styles::spec_with_blue(blue).note_bullet,
{
}

/// The accent color is the foreground of line numbers, source borders and
/// note bullets; two palettes built from different accents differ only there
/// and in the secondary label style.
pub proof fn lemma_accent_is_the_only_parameter(x: Color, y: Color)
    ensures
        ({
            let a = Styles::spec_with_blue(x);
            let b = Styles::spec_with_blue(y);
            &&& a.line_number.fg == Some(x)
            &&& a.source_border.fg == Some(x)
            &&& a.note_bullet.fg == Some(x)
            &&& a == (Styles {
                line_number: a.line_number,
                source_border: a.source_border,
                note_bullet: a.note_bullet,
                secondary_label: a.secondary_label,
                ..b
            })
            &&& x != y ==> a.line_number != b.line_number && a.source_border != b.source_border
                && a.note_bullet != b.note_bullet
        }),
{
}

} // verus!
