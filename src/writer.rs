use vstd::prelude::*;

use crate::diagnostic::{LabelStyle, Severity};
use crate::style::Style;
use crate::styles::Styles;

verus! {

/// One call received by a sink, as a mathematical value.
pub enum SinkCall {
    /// Bytes offered for writing.
    Write(Seq<u8>),
    /// A flush.
    Flush,
    /// A style applied to the output that follows.
    SetStyle(Style),
    /// A return to no style.
    Reset,
}

/// An output that can write bytes and switch the style of what follows.
///
/// A sink is modelled by the calls it has received, and decides for itself
/// what each call returns. A verified sink defines the three model functions
/// and proves its methods against them; a sink written outside verified code
/// leaves them to their defaults, which nothing can be proved of.
pub trait ColorSink {
    /// The error that the sink reports.
    type Error;

    /// The calls this sink has received, oldest first.
    closed spec fn calls(&self) -> Seq<SinkCall> {
        arbitrary()
    }

    /// Whether `r` is what this sink, in its present state, returns for a
    /// write of `buf`.
    closed spec fn write_result(&self, buf: Seq<u8>, r: Result<usize, Self::Error>) -> bool {
        arbitrary()
    }

    /// Whether `r` is what this sink, in its present state, returns for
    /// `call`, a flush, a style or a reset.
    closed spec fn call_result(&self, call: SinkCall, r: Result<(), Self::Error>) -> bool {
        arbitrary()
    }

    /// Writes some bytes, returning how many were written.
    fn write(&mut self, buf: &[u8]) -> (r: Result<usize, Self::Error>)
        ensures
            final(self).calls() == old(self).calls().push(SinkCall::Write(buf@)),
            old(self).write_result(buf@, r),
    ;

    /// Flushes buffered output.
    fn flush(&mut self) -> (r: Result<(), Self::Error>)
        ensures
            final(self).calls() == old(self).calls().push(SinkCall::Flush),
            old(self).call_result(SinkCall::Flush, r),
    ;

    /// Applies a style to the output that follows.
    fn set_style(&mut self, style: &Style) -> (r: Result<(), Self::Error>)
        ensures
            final(self).calls() == old(self).calls().push(SinkCall::SetStyle(*style)),
            old(self).call_result(SinkCall::SetStyle(*style), r),
    ;

    /// Returns the output that follows to no style.
    fn reset(&mut self) -> (r: Result<(), Self::Error>)
        ensures
            final(self).calls() == old(self).calls().push(SinkCall::Reset),
            old(self).call_result(SinkCall::Reset, r),
    ;
}

/// One call kept by a [`StyleBuffer`].
#[derive(Clone, Debug, PartialEq, Eq)]
pub enum BufferedCall {
    Write(Vec<u8>),
    Flush,
    SetStyle(Style),
    Reset,
}

impl View for BufferedCall {
    type V = SinkCall;

    open spec fn view(&self) -> SinkCall {
        match self {
            BufferedCall::Write(bytes) => SinkCall::Write(bytes@),
            BufferedCall::Flush => SinkCall::Flush,
            BufferedCall::SetStyle(style) => SinkCall::SetStyle(*style),
            BufferedCall::Reset => SinkCall::Reset,
        }
    }
}

/// An in-memory sink that keeps every call it receives and never fails.
pub struct StyleBuffer {
    /// The calls received so far, oldest first.
    pub log: Vec<BufferedCall>,
}

impl StyleBuffer {
    /// An empty buffer.
    pub fn new() -> (r: StyleBuffer)
        ensures
            r.calls() == Seq::<SinkCall>::empty(),
    {
        StyleBuffer { log: Vec::new() }
    }

    /// Keeps one call.
    fn record(&mut self, call: BufferedCall)
        ensures
            final(self).calls() == old(self).calls().push(call@),
    {
        self.log.push(call);
        assert(self.log@.map_values(|c: BufferedCall| c@) =~= old(self).log@.map_values(
            |c: BufferedCall| c@,
        ).push(call@));
    }
}

/// A copy of a byte slice.
fn copy_bytes(buf: &[u8]) -> (r: Vec<u8>)
    ensures
        r@ == buf@,
{
    let mut out: Vec<u8> = Vec::new();
    let mut i: usize = 0;
    while i < buf.len()
        invariant
            i <= buf@.len(),
            out@ == buf@.subrange(0, i as int),
        decreases buf@.len() - i,
    {
        out.push(buf[i]);
        i = i + 1;
        assert(out@ =~= buf@.subrange(0, i as int));
    }
    assert(buf@.subrange(0, buf@.len() as int) =~= buf@);
    out
}

impl ColorSink for StyleBuffer {
    type Error = ();

    open spec fn calls(&self) -> Seq<SinkCall> {
        self.log@.map_values(|c: BufferedCall| c@)
    }

    open spec fn write_result(&self, buf: Seq<u8>, r: Result<usize, ()>) -> bool {
        r == Ok::<usize, ()>(buf.len() as usize)
    }

    open spec fn call_result(&self, call: SinkCall, r: Result<(), ()>) -> bool {
        r == Ok::<(), ()>(())
    }

    fn write(&mut self, buf: &[u8]) -> (r: Result<usize, ()>) {
        let bytes = copy_bytes(buf);
        self.record(BufferedCall::Write(bytes));
        Ok(buf.len())
    }

    fn flush(&mut self) -> (r: Result<(), ()>) {
        self.record(BufferedCall::Flush);
        Ok(())
    }

    fn set_style(&mut self, style: &Style) -> (r: Result<(), ()>) {
        self.record(BufferedCall::SetStyle(*style));
        Ok(())
    }

    fn reset(&mut self) -> (r: Result<(), ()>) {
        self.record(BufferedCall::Reset);
        Ok(())
    }
}

/// A semantic element of a rendered diagnostic that has a style of its own.
#[derive(Clone, Copy, Debug, PartialEq, Eq, Structural)]
pub enum Role {
    Header(Severity),
    HeaderMessage,
    LineNumber,
    NoteBullet,
    SourceBorder,
    Label(Severity, LabelStyle),
}

impl Styles {
    /// The style of a role in this palette.
    pub open spec fn spec_role(&self, role: Role) -> Style {
        match role {
            Role::Header(severity) => self.spec_header(severity),
            Role::HeaderMessage => self.header_message,
            Role::LineNumber => self.line_number,
            Role::NoteBullet => self.note_bullet,
            Role::SourceBorder => self.source_border,
            Role::Label(severity, label_style) => self.spec_label(severity, label_style),
        }
    }

    /// The style of a role in this palette.
    pub fn role(&self, role: Role) -> (r: &Style)
        ensures
            *r == self.spec_role(role),
    {
        match role {
            Role::Header(severity) => self.header(severity),
            Role::HeaderMessage => self.header_message(),
            Role::LineNumber => self.line_number(),
            Role::NoteBullet => self.note_bullet(),
            Role::SourceBorder => self.source_border(),
            Role::Label(severity, label_style) => self.label(severity, label_style),
        }
    }
}

/// A sink bound to a palette: each operation applies the palette's style for
/// one role to the sink.
pub struct StylesWriter<'a, W> {
    writer: W,
    style: &'a Styles,
}

impl<'a, W: ColorSink> StylesWriter<'a, W> {
    /// The palette that this writer applies.
    pub closed spec fn palette(&self) -> Styles {
        *self.style
    }

    /// The sink that this writer drives.
    pub closed spec fn sink(&self) -> W {
        self.writer
    }

    /// Binds `writer` to the palette `style`.
    pub fn new(writer: W, style: &'a Styles) -> (r: Self)
        ensures
            r.palette() == *style,
            r.sink() == writer,
    {
        Self { writer, style }
    }

    /// The style that this writer applies for a role.
    pub fn style_for(&self, role: Role) -> (r: &Style)
        ensures
            *r == self.palette().spec_role(role),
    {
        self.style.role(role)
    }

    /// Applies the palette's style for a role to the sink, and returns what
    /// the sink returned.
    pub fn set_role(&mut self, role: Role) -> (r: Result<(), W::Error>)
        ensures
            final(self).palette() == old(self).palette(),
            final(self).sink().calls() == old(self).sink().calls().push(SinkCall::SetStyle(old(self).palette().spec_role(role))),
            old(self).sink().call_result(SinkCall::SetStyle(old(self).palette().spec_role(role)), r),
    {
        let palette: &'a Styles = self.style;
        let style = palette.role(role);
        self.writer.set_style(style)
    }

    /// Writes bytes to the sink.
    pub fn write(&mut self, buf: &[u8]) -> (r: Result<usize, W::Error>)
        ensures
            final(self).palette() == old(self).palette(),
            final(self).sink().calls() == old(self).sink().calls().push(SinkCall::Write(buf@)),
            old(self).sink().write_result(buf@, r),
    {
        self.writer.write(buf)
    }

    /// Flushes the sink.
    pub fn flush(&mut self) -> (r: Result<(), W::Error>)
        ensures
            final(self).palette() == old(self).palette(),
            final(self).sink().calls() == old(self).sink().calls().push(SinkCall::Flush),
            old(self).sink().call_result(SinkCall::Flush, r),
    {
        self.writer.flush()
    }

    /// Applies the header style of a severity.
    pub fn set_header(&mut self, severity: Severity) -> (r: Result<(), W::Error>)
        ensures
            final(self).palette() == old(self).palette(),
            final(self).sink().calls() == old(self).sink().calls().push(SinkCall::SetStyle(old(self).palette().spec_role(Role::Header(severity)))),
            old(self).sink().call_result(SinkCall::SetStyle(old(self).palette().spec_role(Role::Header(severity))), r),
    {
        self.set_role(Role::Header(severity))
    }

    /// Applies the style of a header's message.
    pub fn set_header_message(&mut self) -> (r: Result<(), W::Error>)
        ensures
            final(self).palette() == old(self).palette(),
            final(self).sink().calls() == old(self).sink().calls().push(SinkCall::SetStyle(old(self).palette().spec_role(Role::HeaderMessage))),
            old(self).sink().call_result(SinkCall::SetStyle(old(self).palette().spec_role(Role::HeaderMessage)), r),
    {
        self.set_role(Role::HeaderMessage)
    }

    /// Applies the style of line numbers.
    pub fn set_line_number(&mut self) -> (r: Result<(), W::Error>)
        ensures
            final(self).palette() == old(self).palette(),
            final(self).sink().calls() == old(self).sink().calls().push(SinkCall::SetStyle(old(self).palette().spec_role(Role::LineNumber))),
            old(self).sink().call_result(SinkCall::SetStyle(old(self).palette().spec_role(Role::LineNumber)), r),
    {
        self.set_role(Role::LineNumber)
    }

    /// Applies the style of note bullets.
    pub fn set_note_bullet(&mut self) -> (r: Result<(), W::Error>)
        ensures
            final(self).palette() == old(self).palette(),
            final(self).sink().calls() == old(self).sink().calls().push(SinkCall::SetStyle(old(self).palette().spec_role(Role::NoteBullet))),
            old(self).sink().call_result(SinkCall::SetStyle(old(self).palette().spec_role(Role::NoteBullet)), r),
    {
        self.set_role(Role::NoteBullet)
    }

    /// Applies the style of source borders.
    pub fn set_source_border(&mut self) -> (r: Result<(), W::Error>)
        ensures
            final(self).palette() == old(self).palette(),
            final(self).sink().calls() == old(self).sink().calls().push(SinkCall::SetStyle(old(self).palette().spec_role(Role::SourceBorder))),
            old(self).sink().call_result(SinkCall::SetStyle(old(self).palette().spec_role(Role::SourceBorder)), r),
    {
        self.set_role(Role::SourceBorder)
    }

    /// Applies the style of a label.
    pub fn set_label(&mut self, severity: Severity, label_style: LabelStyle) -> (r: Result<
        (),
        W::Error,
    >)
        ensures
            final(self).palette() == old(self).palette(),
            final(self).sink().calls() == old(self).sink().calls().push(SinkCall::SetStyle(old(self).palette().spec_role(Role::Label(severity, label_style)))),
            old(self).sink().call_result(SinkCall::SetStyle(old(self).palette().spec_role(Role::Label(severity, label_style))), r),
    {
        self.set_role(Role::Label(severity, label_style))
    }

    /// Returns the sink to no style.
    pub fn reset(&mut self) -> (r: Result<(), W::Error>)
        ensures
            final(self).palette() == old(self).palette(),
            final(self).sink().calls() == old(self).sink().calls().push(SinkCall::Reset),
            old(self).sink().call_result(SinkCall::Reset, r),
    {
        self.writer.reset()
    }

    /// Releases the sink.
    pub fn into_inner(self) -> (r: W)
        ensures
            r == self.sink(),
    {
        self.writer
    }
}

} // verus!
