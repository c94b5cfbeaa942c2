use codespan_reporting::diagnostic::{LabelStyle, Severity};
use codespan_reporting::style::{Color, Style};
use codespan_reporting::styles::Styles;
use codespan_reporting::writer::{BufferedCall, ColorSink, Role, StyleBuffer, StylesWriter};

#[derive(Debug, Clone, PartialEq, Eq)]
struct Failure {
    code: u32,
    message: String,
}

struct Failing;

impl ColorSink for Failing {
    type Error = Failure;

    fn write(&mut self, buf: &[u8]) -> Result<usize, Failure> {
        Ok(buf.len())
    }

    fn flush(&mut self) -> Result<(), Failure> {
        Ok(())
    }

    fn set_style(&mut self, _style: &Style) -> Result<(), Failure> {
        Err(Failure { code: 7, message: "style refused".to_string() })
    }

    fn reset(&mut self) -> Result<(), Failure> {
        Err(Failure { code: 8, message: "reset refused".to_string() })
    }
}

#[test]
fn writer_applies_palette_styles() {
    let palette = Styles::with_blue(Color::Blue);
    let mut w = StylesWriter::new(StyleBuffer::new(), &palette);
    assert_eq!(w.set_header(Severity::Warning), Ok(()));
    assert_eq!(w.set_header_message(), Ok(()));
    assert_eq!(w.set_line_number(), Ok(()));
    assert_eq!(w.set_note_bullet(), Ok(()));
    assert_eq!(w.set_source_border(), Ok(()));
    assert_eq!(w.set_label(Severity::Help, LabelStyle::Primary), Ok(()));
    assert_eq!(w.set_label(Severity::Bug, LabelStyle::Secondary), Ok(()));
    assert_eq!(w.reset(), Ok(()));
    assert_eq!(w.write(b"abc"), Ok(3));
    assert_eq!(w.flush(), Ok(()));
    let sink = w.into_inner();
    let fg = |c| Style::new().with_fg(Some(c));
    assert_eq!(
        sink.log,
        vec![
            BufferedCall::SetStyle(fg(Color::Yellow).with_bold(true).with_intense(true)),
            BufferedCall::SetStyle(Style::new().with_bold(true).with_intense(true)),
            BufferedCall::SetStyle(fg(Color::Blue)),
            BufferedCall::SetStyle(fg(Color::Blue)),
            BufferedCall::SetStyle(fg(Color::Blue)),
            BufferedCall::SetStyle(fg(Color::Cyan)),
            BufferedCall::SetStyle(fg(Color::Blue)),
            BufferedCall::Reset,
            BufferedCall::Write(b"abc".to_vec()),
            BufferedCall::Flush,
        ]
    );
}

#[test]
fn buffer_write_of_nothing() {
    let mut b = StyleBuffer::new();
    assert_eq!(b.write(b""), Ok(0));
    assert_eq!(b.log, vec![BufferedCall::Write(Vec::new())]);
}

#[test]
fn writer_style_for_roles() {
    let palette = Styles::with_blue(Color::Cyan);
    let w = StylesWriter::new(StyleBuffer::new(), &palette);
    assert_eq!(w.style_for(Role::Header(Severity::Error)), palette.header(Severity::Error));
    assert_eq!(w.style_for(Role::SourceBorder), palette.source_border());
    assert_eq!(
        w.style_for(Role::Label(Severity::Note, LabelStyle::Primary)),
        palette.label(Severity::Note, LabelStyle::Primary)
    );
    assert_eq!(*palette.role(Role::NoteBullet), Style::new().with_fg(Some(Color::Cyan)));
}

#[test]
fn failing_sink_errors_pass_through() {
    let palette = Styles::with_blue(Color::Blue);
    let mut w = StylesWriter::new(Failing, &palette);
    let expected = Err(Failure { code: 7, message: "style refused".to_string() });
    for sev in [Severity::Bug, Severity::Error, Severity::Warning, Severity::Note, Severity::Help] {
        assert_eq!(w.set_header(sev), expected);
        assert_eq!(w.set_label(sev, LabelStyle::Primary), expected);
        assert_eq!(w.set_label(sev, LabelStyle::Secondary), expected);
    }
    assert_eq!(w.set_header_message(), expected);
    assert_eq!(w.set_line_number(), expected);
    assert_eq!(w.set_note_bullet(), expected);
    assert_eq!(w.set_source_border(), expected);
    assert_eq!(w.set_role(Role::HeaderMessage), expected);
    assert_eq!(w.reset(), Err(Failure { code: 8, message: "reset refused".to_string() }));
    assert_eq!(w.write(b"xy"), Ok(2));
}
