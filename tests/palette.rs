use codespan_reporting::diagnostic::{LabelStyle, Severity};
use codespan_reporting::style::{Color, Style};
use codespan_reporting::styles::{default_accent, Styles};

const SEVERITIES: [Severity; 5] =
    [Severity::Bug, Severity::Error, Severity::Warning, Severity::Note, Severity::Help];

fn fg(c: Color) -> Style {
    Style::new().with_fg(Some(c))
}

fn bold_fg(c: Color) -> Style {
    Style::new().with_fg(Some(c)).with_bold(true).with_intense(true)
}

#[test]
fn header_styles() {
    let s = Styles::with_blue(Color::Blue);
    assert_eq!(*s.header(Severity::Bug), bold_fg(Color::Red));
    assert_eq!(*s.header(Severity::Error), bold_fg(Color::Red));
    assert_eq!(*s.header(Severity::Warning), bold_fg(Color::Yellow));
    assert_eq!(*s.header(Severity::Note), bold_fg(Color::Green));
    assert_eq!(*s.header(Severity::Help), bold_fg(Color::Cyan));
    assert_eq!(*s.header(Severity::Bug), *s.header(Severity::Error));
    assert_eq!(*s.header_message(), Style::new().with_bold(true).with_intense(true));
}

#[test]
fn secondary_label_is_shared() {
    let s = Styles::with_blue(Color::Magenta);
    for sev in SEVERITIES {
        assert_eq!(*s.label(sev, LabelStyle::Secondary), fg(Color::Magenta));
    }
    let mut custom = s;
    custom.secondary_label = bold_fg(Color::White);
    for sev in SEVERITIES {
        assert_eq!(*custom.label(sev, LabelStyle::Secondary), bold_fg(Color::White));
    }
}

#[test]
fn primary_label_shares_hue_without_decoration() {
    let s = Styles::with_blue(Color::Blue);
    for sev in SEVERITIES {
        let label = s.label(sev, LabelStyle::Primary);
        let header = s.header(sev);
        assert_eq!(label.fg, header.fg);
        assert!(header.bold && header.intense);
        assert!(!label.bold && !label.intense);
    }
    assert_eq!(*s.label(Severity::Warning, LabelStyle::Primary), fg(Color::Yellow));
    assert_ne!(
        s.label(Severity::Error, LabelStyle::Primary),
        s.label(Severity::Note, LabelStyle::Primary)
    );
    assert_ne!(
        s.label(Severity::Note, LabelStyle::Primary),
        s.label(Severity::Help, LabelStyle::Primary)
    );
}

#[test]
fn accents_agree() {
    for accent in [Color::Blue, Color::Cyan, Color::Rgb(1, 2, 3)] {
        let s = Styles::with_blue(accent);
        assert_eq!(s.line_number(), s.source_border());
        assert_eq!(s.source_border(), s.note_bullet());
    }
}

#[test]
fn accent_reaches_the_accent_roles_only() {
    let x = Styles::with_blue(Color::Ansi256(17));
    let y = Styles::with_blue(Color::Green);
    assert_eq!(*x.line_number(), fg(Color::Ansi256(17)));
    assert_eq!(*x.source_border(), fg(Color::Ansi256(17)));
    assert_eq!(*x.note_bullet(), fg(Color::Ansi256(17)));
    assert_eq!(*y.line_number(), fg(Color::Green));
    assert_eq!(*y.source_border(), fg(Color::Green));
    assert_eq!(*y.note_bullet(), fg(Color::Green));
    let mut z = x;
    z.line_number = y.line_number;
    z.source_border = y.source_border;
    z.note_bullet = y.note_bullet;
    z.secondary_label = y.secondary_label;
    assert_eq!(z, y);
}

#[test]
fn default_accent_by_platform() {
    assert_eq!(default_accent(true), Color::Cyan);
    assert_eq!(default_accent(false), Color::Blue);
    let windows = Styles::platform_default(true);
    let other = Styles::platform_default(false);
    assert_eq!(windows, Styles::with_blue(Color::Cyan));
    assert_eq!(other, Styles::with_blue(Color::Blue));
    assert_eq!(*windows.line_number(), fg(Color::Cyan));
    assert_eq!(*other.line_number(), fg(Color::Blue));
}

#[test]
fn style_builders() {
    let s = Style::new();
    assert_eq!(s, Style::default());
    assert_eq!(s.fg, None);
    assert!(!s.bold && !s.intense && !s.underline);
    let t = s.with_bg(Some(Color::Black)).with_underline(true);
    assert_eq!(t.bg, Some(Color::Black));
    assert!(t.underline);
    assert_eq!(t.with_bg(None).with_underline(false), s);
}
