use vstd::prelude::*;

verus! {

/// The glyphs of a preset, as mathematical values.
pub struct CharsView {
    pub snippet_start: Seq<char>,
    pub source_border_left: char,
    pub source_border_left_break: char,
    pub note_bullet: char,
    pub single_primary_caret: char,
    pub single_secondary_caret: char,
    pub multi_primary_caret_start: char,
    pub multi_primary_caret_end: char,
    pub multi_secondary_caret_start: char,
    pub multi_secondary_caret_end: char,
    pub multi_top_left: char,
    pub multi_top: char,
    pub multi_bottom_left: char,
    pub multi_bottom: char,
    pub multi_left: char,
    pub pointer_left: char,
}

/// Characters to use when rendering the diagnostic.
///
/// By using [`Chars::ascii()`] you can switch to an ASCII-only format suitable
/// for rendering on terminals that do not support box drawing characters.
#[derive(Clone, Debug)]
pub struct Chars {
    /// The characters to use for the top-left border of the snippet.
    /// Defaults to: `"┌─"` or `"-->"` with [`Chars::ascii()`].
    pub snippet_start: String,
    /// The character to use for the left border of the source.
    /// Defaults to: `'│'` or `'|'` with [`Chars::ascii()`].
    pub source_border_left: char,
    /// The character to use for the left border break of the source.
    /// Defaults to: `'·'` or `'.'` with [`Chars::ascii()`].
    pub source_border_left_break: char,
    /// The character to use for the note bullet.
    /// Defaults to: `'='`.
    pub note_bullet: char,
    /// The character to use for marking a single-line primary label.
    /// Defaults to: `'^'`.
    pub single_primary_caret: char,
    /// The character to use for marking a single-line secondary label.
    /// Defaults to: `'-'`.
    pub single_secondary_caret: char,
    /// The character to use for marking the start of a multi-line primary label.
    /// Defaults to: `'^'`.
    pub multi_primary_caret_start: char,
    /// The character to use for marking the end of a multi-line primary label.
    /// Defaults to: `'^'`.
    pub multi_primary_caret_end: char,
    /// The character to use for marking the start of a multi-line secondary label.
    /// Defaults to: `'\''`.
    pub multi_secondary_caret_start: char,
    /// The character to use for marking the end of a multi-line secondary label.
    /// Defaults to: `'\''`.
    pub multi_secondary_caret_end: char,
    /// The character to use for the top-left corner of a multi-line label.
    /// Defaults to: `'╭'` or `'/'` with [`Chars::ascii()`].
    pub multi_top_left: char,
    /// The character to use for the top of a multi-line label.
    /// Defaults to: `'─'` or `'-'` with [`Chars::ascii()`].
    pub multi_top: char,
    /// The character to use for the bottom-left corner of a multi-line label.
    /// Defaults to: `'╰'` or `'\'` with [`Chars::ascii()`].
    pub multi_bottom_left: char,
    /// The character to use when marking the bottom of a multi-line label.
    /// Defaults to: `'─'` or `'-'` with [`Chars::ascii()`].
    pub multi_bottom: char,
    /// The character to use for the left of a multi-line label.
    /// Defaults to: `'│'` or `'|'` with [`Chars::ascii()`].
    pub multi_left: char,
    /// The character to use for the left of a pointer underneath a caret.
    /// Defaults to: `'│'` or `'|'` with [`Chars::ascii()`].
    pub pointer_left: char,
}

impl View for Chars {
    type V = CharsView;

    open spec fn view(&self) -> CharsView {
        CharsView {
            snippet_start: self.snippet_start@,
            source_border_left: self.source_border_left,
            source_border_left_break: self.source_border_left_break,
            note_bullet: self.note_bullet,
            single_primary_caret: self.single_primary_caret,
            single_secondary_caret: self.single_secondary_caret,
            multi_primary_caret_start: self.multi_primary_caret_start,
            multi_primary_caret_end: self.multi_primary_caret_end,
            multi_secondary_caret_start: self.multi_secondary_caret_start,
            multi_secondary_caret_end: self.multi_secondary_caret_end,
            multi_top_left: self.multi_top_left,
            multi_top: self.multi_top,
            multi_bottom_left: self.multi_bottom_left,
            multi_bottom: self.multi_bottom,
            multi_left: self.multi_left,
            pointer_left: self.pointer_left,
        }
    }
}

/// The Unicode box-drawing preset.
pub open spec fn box_drawing_glyphs() -> CharsView {
    CharsView {
        snippet_start: seq!['┌', '─'],
        source_border_left: '│',
        source_border_left_break: '·',
        note_bullet: '=',
        single_primary_caret: '^',
        single_secondary_caret: '-',
        multi_primary_caret_start: '^',
        multi_primary_caret_end: '^',
        multi_secondary_caret_start: '\'',
        multi_secondary_caret_end: '\'',
        multi_top_left: '╭',
        multi_top: '─',
        multi_bottom_left: '╰',
        multi_bottom: '─',
        multi_left: '│',
        pointer_left: '│',
    }
}

/// The ASCII-only preset.
pub open spec fn ascii_glyphs() -> CharsView {
    CharsView {
        snippet_start: seq!['-', '-', '>'],
        source_border_left: '|',
        source_border_left_break: '.',
        note_bullet: '=',
        single_primary_caret: '^',
        single_secondary_caret: '-',
        multi_primary_caret_start: '^',
        multi_primary_caret_end: '^',
        multi_secondary_caret_start: '\'',
        multi_secondary_caret_end: '\'',
        multi_top_left: '/',
        multi_top: '-',
        multi_bottom_left: '\\',
        multi_bottom: '-',
        multi_left: '|',
        pointer_left: '|',
    }
}

impl Default for Chars {
    fn default() -> (r: Chars)
        ensures
            r@ == box_drawing_glyphs(),
    {
        Chars::box_drawing()
    }
}

impl Chars {
    /// A character set that uses Unicode box drawing characters.
    pub fn box_drawing() -> (r: Chars)
        ensures
            r@ == box_drawing_glyphs(),
    {
        let snippet_start = "┌─".to_owned();
        proof {
            reveal_strlit("┌─");
        }
        assert(snippet_start@ =~= seq!['┌', '─']);
        Chars {
            snippet_start,
            source_border_left: '│',
            source_border_left_break: '·',
            note_bullet: '=',
            single_primary_caret: '^',
            single_secondary_caret: '-',
            multi_primary_caret_start: '^',
            multi_primary_caret_end: '^',
            multi_secondary_caret_start: '\'',
            multi_secondary_caret_end: '\'',
            multi_top_left: '╭',
            multi_top: '─',
            multi_bottom_left: '╰',
            multi_bottom: '─',
            multi_left: '│',
            pointer_left: '│',
        }
    }

    /// A character set that only uses ASCII characters.
    ///
    /// This is useful if your terminal's font does not support box drawing
    /// characters well and results in output that looks similar to rustc's
    /// diagnostic output.
    pub fn ascii() -> (r: Chars)
        ensures
            r@ == ascii_glyphs(),
    {
        let snippet_start = "-->".to_owned();
        proof {
            reveal_strlit("-->");
        }
        assert(snippet_start@ =~= seq!['-', '-', '>']);
        Chars {
            snippet_start,
            source_border_left: '|',
            source_border_left_break: '.',
            note_bullet: '=',
            single_primary_caret: '^',
            single_secondary_caret: '-',
            multi_primary_caret_start: '^',
            multi_primary_caret_end: '^',
            multi_secondary_caret_start: '\'',
            multi_secondary_caret_end: '\'',
            multi_top_left: '/',
            multi_top: '-',
            multi_bottom_left: '\\',
            multi_bottom: '-',
            multi_left: '|',
            pointer_left: '|',
        }
    }
}

/// The ASCII preset differs from the box-drawing preset in the snippet start
/// and every multi-line connector, and keeps its note bullet and single-line
/// carets.
pub proof fn lemma_ascii_differs_from_box_drawing()
    ensures
        ({
            let u = box_drawing_glyphs();
            let a = ascii_glyphs();
            &&& a.snippet_start != u.snippet_start
            &&& a.multi_top_left != u.multi_top_left
            &&& a.multi_top != u.multi_top
            &&& a.multi_bottom_left != u.multi_bottom_left
            &&& a.multi_bottom != u.multi_bottom
            &&& a.multi_left != u.multi_left
            &&& a.note_bullet == u.note_bullet && a.note_bullet == '='
            &&& a.single_primary_caret == u.single_primary_caret && a.single_primary_caret == '^'
            &&& a.single_secondary_caret == u.single_secondary_caret && a.single_secondary_caret
                == '-'
        }),
{
    assert(ascii_glyphs().snippet_start.len() != box_drawing_glyphs().snippet_start.len());
}

} // verus!
