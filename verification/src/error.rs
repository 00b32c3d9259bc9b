use vstd::prelude::*;

use crate::text::{
    spec_dec, spec_repeat, spec_is_word_char, usize_dec, repeat_char, chars_to_string,
    str_to_chars, is_word_char,
};

verus! {

/// A 1-based line/column position in the source text. The value (0, 0) is the
/// sentinel for nodes that have no real position.
#[derive(Debug, Clone, Copy, PartialEq, Eq, Structural)]
pub struct SourceLocation {
    pub line: usize,
    pub column: usize,
}

impl SourceLocation {
    pub fn new(line: usize, column: usize) -> (r: Self)
        ensures
            r.line == line,
            r.column == column,
    {
        SourceLocation { line, column }
    }

    pub fn unknown() -> (r: Self)
        ensures
            r.line == 0,
            r.column == 0,
    {
        SourceLocation { line: 0, column: 0 }
    }

    pub fn is_unknown(&self) -> (r: bool)
        ensures
            r == self.spec_is_unknown(),
    {
        self.line == 0 && self.column == 0
    }

    pub open spec fn spec_is_unknown(&self) -> bool {
        self.line == 0 && self.column == 0
    }
}

/// One reported problem: a position, a message, an optional corrective
/// suggestion, and an optional secondary position with its label.
pub struct Diagnostic {
    pub location: SourceLocation,
    pub message: String,
    pub suggestion: Option<String>,
    pub secondary_location: Option<SourceLocation>,
    pub secondary_label: Option<String>,
}

/// The mathematical content of a `Diagnostic`.
pub ghost struct DiagV {
    pub loc: SourceLocation,
    pub msg: Seq<char>,
    pub sugg: Option<Seq<char>>,
    pub sec_loc: Option<SourceLocation>,
    pub sec_label: Option<Seq<char>>,
}

impl View for Diagnostic {
    type V = DiagV;

    open spec fn view(&self) -> DiagV {
        DiagV {
            loc: self.location,
            msg: self.message@,
            sugg: match self.suggestion {
                Some(s) => Some(s@),
                None => None,
            },
            sec_loc: self.secondary_location,
            sec_label: match self.secondary_label {
                Some(s) => Some(s@),
                None => None,
            },
        }
    }
}

/// The views of a list of diagnostics.
pub open spec fn diags_view(v: Seq<Diagnostic>) -> Seq<DiagV> {
    v.map_values(|d: Diagnostic| d@)
}

/// A convenient constructor for the common triple.
pub open spec fn spec_diag(loc: SourceLocation, msg: Seq<char>, sugg: Option<Seq<char>>) -> DiagV {
    DiagV { loc, msg, sugg, sec_loc: None, sec_label: None }
}

// ---------------------------------------------------------------------------
// Splitting source text into lines
// ---------------------------------------------------------------------------

/// Index of the first newline in `s`, or `s.len()` if there is none.
pub open spec fn spec_first_nl(s: Seq<char>) -> int
    decreases s.len(),
{
    if s.len() == 0 {
        0
    } else if s[0] == '\n' {
        0
    } else {
        1 + spec_first_nl(s.skip(1))
    }
}

/// Drops one trailing carriage return, as `str::lines` does.
pub open spec fn spec_strip_cr(s: Seq<char>) -> Seq<char> {
    if s.len() > 0 && s[s.len() - 1] == '\r' {
        s.take(s.len() - 1)
    } else {
        s
    }
}

/// The lines of a source text: split at `'\n'`, one trailing `'\r'` removed
/// from each line, and no empty final line for text that ends in a newline.
pub open spec fn spec_lines(s: Seq<char>) -> Seq<Seq<char>>
    decreases s.len(),
{
    if s.len() == 0 {
        Seq::<Seq<char>>::empty()
    } else {
        let i = spec_first_nl(s);
        if 0 <= i && i < s.len() {
            seq![spec_strip_cr(s.take(i))] + spec_lines(s.skip(i + 1))
        } else {
            seq![spec_strip_cr(s)]
        }
    }
}

proof fn lemma_first_nl_at(s: Seq<char>, k: int)
    requires
        0 <= k <= s.len(),
        forall|j: int| 0 <= j < k ==> s[j] != '\n',
        k < s.len() ==> s[k] == '\n',
    ensures
        spec_first_nl(s) == k,
    decreases s.len(),
{
    if s.len() == 0 {
    } else if s[0] == '\n' {
    } else {
        assert forall|j: int| 0 <= j < k - 1 implies s.skip(1)[j] != '\n' by {
            assert(s[j + 1] != '\n');
        }
        lemma_first_nl_at(s.skip(1), k - 1);
    }
}

/// Splits source text into its lines.
pub fn split_lines(source: &str) -> (r: Vec<String>)
    ensures
        r@.map_values(|l: String| l@) == spec_lines(source@),
{
    let chars = str_to_chars(source);
    let n = chars.len();
    let mut out: Vec<String> = Vec::new();
    let mut p: usize = 0;
    proof {
        assert(source@.skip(0) =~= source@);
        assert(out@.map_values(|l: String| l@) =~= Seq::<Seq<char>>::empty());
        assert(out@.map_values(|l: String| l@) + spec_lines(source@) =~= spec_lines(source@));
    }
    while p < n
        invariant
            p <= n,
            n == chars.len(),
            chars@ == source@,
            out@.map_values(|l: String| l@) + spec_lines(source@.skip(p as int))
                == spec_lines(source@),
        decreases n - p,
    {
        let ghost rest = source@.skip(p as int);
        // find the next newline
        let mut q: usize = p;
        while q < n && chars[q] != '\n'
            invariant
                p <= q <= n,
                n == chars.len(),
                chars@ == source@,
                forall|j: int| p <= j < q ==> chars@[j] != '\n',
            decreases n - q,
        {
            q = q + 1;
        }
        proof {
            assert forall|j: int| 0 <= j < q - p implies rest[j] != '\n' by {
                assert(chars@[p + j] != '\n');
            }
            if q < n {
                assert(rest[q - p] == '\n');
            }
            lemma_first_nl_at(rest, q - p);
        }
        // the line is chars[p..q], with one trailing '\r' removed
        let line_end: usize = if q > p && chars[q - 1] == '\r' { q - 1 } else { q };
        let mut line: Vec<char> = Vec::new();
        let mut i: usize = p;
        while i < line_end
            invariant
                p <= i <= line_end <= n,
                n == chars.len(),
                chars@ == source@,
                line@ == source@.subrange(p as int, i as int),
            decreases line_end - i,
        {
            line.push(chars[i]);
            assert(source@.subrange(p as int, i + 1 as int)
                =~= source@.subrange(p as int, i as int) + seq![source@[i as int]]);
            i = i + 1;
        }
        proof {
            if q == n {
                assert(rest =~= source@.subrange(p as int, n as int));
                if q > p && source@[q - 1] == '\r' {
                    assert(rest.take(rest.len() - 1) =~= source@.subrange(p as int, n - 1 as int));
                }
                assert(spec_strip_cr(rest) =~= line@);
                assert(spec_lines(rest) == seq![spec_strip_cr(rest)]);
            } else {
                let tk = rest.take(q - p);
                assert(tk =~= source@.subrange(p as int, q as int));
                if q > p && source@[q - 1] == '\r' {
                    assert(tk.take(tk.len() - 1) =~= source@.subrange(p as int, q - 1 as int));
                }
                assert(spec_strip_cr(tk) =~= line@);
                assert(spec_lines(rest)
                    == seq![spec_strip_cr(tk)] + spec_lines(rest.skip(q - p + 1)));
                assert(rest.skip(q - p + 1) =~= source@.skip(q + 1 as int));
            }
        }
        let s = chars_to_string(&line);
        out.push(s);
        proof {
            assert(out@.map_values(|l: String| l@)
                =~= out@.take(out@.len() - 1).map_values(|l: String| l@) + seq![line@]);
        }
        if q == n {
            p = n;
            assert(spec_lines(source@.skip(p as int)) =~= Seq::<Seq<char>>::empty());
        } else {
            p = q + 1;
        }
    }
    assert(spec_lines(source@.skip(p as int)) =~= Seq::<Seq<char>>::empty());
    assert(out@.map_values(|l: String| l@) =~= out@.map_values(|l: String| l@) + Seq::<Seq<char>>::empty());
    out
}

// ---------------------------------------------------------------------------
// Rendering one diagnostic block
// ---------------------------------------------------------------------------

/// The number of leading word characters of `s`.
pub open spec fn spec_leading_word(s: Seq<char>) -> nat
    decreases s.len(),
{
    if s.len() == 0 || !spec_is_word_char(s[0]) {
        0
    } else {
        1 + spec_leading_word(s.skip(1))
    }
}

proof fn lemma_leading_word_at(s: Seq<char>, k: int)
    requires
        0 <= k <= s.len(),
        forall|j: int| 0 <= j < k ==> spec_is_word_char(s[j]),
        k < s.len() ==> !spec_is_word_char(s[k]),
    ensures
        spec_leading_word(s) == k,
    decreases s.len(),
{
    if s.len() == 0 {
    } else if !spec_is_word_char(s[0]) {
    } else {
        assert forall|j: int| 0 <= j < k - 1 implies spec_is_word_char(s.skip(1)[j]) by {
            assert(spec_is_word_char(s[j + 1]));
        }
        lemma_leading_word_at(s.skip(1), k - 1);
    }
}

/// The width of the caret under the implicated token: the length of the run
/// of word characters starting at the column, and at least one.
pub open spec fn spec_caret_width(content: Seq<char>, col: nat) -> nat {
    if col > 0 && col <= content.len() {
        let w = spec_leading_word(content.skip(col - 1));
        if w == 0 { 1 } else { w }
    } else {
        1
    }
}

/// The caret line: spaces to reach the column (past the `"  N | "` margin),
/// then the carets, then a newline.
pub open spec fn spec_caret_line(line_no: nat, col: nat, content: Seq<char>) -> Seq<char> {
    let spaces: nat = if col > 0 { (col - 1) as nat } else { 0 };
    let margin: nat = (spec_dec(line_no).len() + 3) as nat;
    spec_repeat(' ', margin + spaces) + spec_repeat('^', spec_caret_width(content, col)) + "\n"@
}

/// A `"  N | content"` line.
pub open spec fn spec_line_block(num: nat, content: Seq<char>) -> Seq<char> {
    "  "@ + spec_dec(num) + " | "@ + content + "\n"@
}

/// The context printed around a position: the previous line when there is
/// one, the line itself, the caret line, and the next line when there is one.
/// Empty when the line number is out of range.
pub open spec fn spec_context(lines: Seq<Seq<char>>, loc: SourceLocation) -> Seq<char> {
    if loc.line > 0 && loc.line <= lines.len() {
        let cur = lines[loc.line - 1];
        (if loc.line > 1 { spec_line_block((loc.line - 1) as nat, lines[loc.line - 2]) } else { Seq::<char>::empty() })
        + spec_line_block(loc.line as nat, cur)
        + spec_caret_line(loc.line as nat, loc.column as nat, cur)
        + (if loc.line < lines.len() { spec_line_block((loc.line + 1) as nat, lines[loc.line as int]) } else { Seq::<char>::empty() })
    } else {
        Seq::<char>::empty()
    }
}

/// The header of a located block: `"<mark> <label> at file:line:col:" `.
pub open spec fn spec_at_header(file: Seq<char>, loc: SourceLocation) -> Seq<char> {
    file + ":"@ + spec_dec(loc.line as nat) + ":"@ + spec_dec(loc.column as nat) + ":\n"@
}

/// The trailing part of every block: a blank line, the message, the optional
/// suggestion, and a final blank line.
pub open spec fn spec_tail(msg: Seq<char>, sugg: Option<Seq<char>>) -> Seq<char> {
    "\n"@ + msg + "\n"@ + (match sugg {
        Some(s) => "\u{1f4a1} Suggestion: "@ + s + "\n"@,
        None => Seq::<char>::empty(),
    }) + "\n"@
}

/// The secondary-location block, when one is given and its line is in range.
pub open spec fn spec_secondary(
    file: Seq<char>,
    lines: Seq<Seq<char>>,
    sec_loc: Option<SourceLocation>,
    sec_label: Option<Seq<char>>,
) -> Seq<char> {
    match sec_loc {
        Some(sl) => {
            if !sl.spec_is_unknown() && sl.line > 0 && sl.line <= lines.len() {
                let label = match sec_label {
                    Some(l) => l,
                    None => "Note: defined here"@,
                };
                "\n\u{1f4cc} "@ + label + " at "@ + spec_at_header(file, sl) + spec_context(lines, sl)
            } else {
                Seq::<char>::empty()
            }
        },
        None => Seq::<char>::empty(),
    }
}

/// The full rendering of one diagnostic against the source text.
pub open spec fn spec_render(file: Seq<char>, lines: Seq<Seq<char>>, d: DiagV) -> Seq<char> {
    if d.loc.spec_is_unknown() {
        "\u{274c} Error: "@ + d.msg + "\n"@ + (match d.sugg {
            Some(s) => "\u{1f4a1} Suggestion: "@ + s + "\n"@,
            None => Seq::<char>::empty(),
        }) + "\n"@
    } else {
        "\u{274c} Error at "@ + spec_at_header(file, d.loc)
        + spec_context(lines, d.loc)
        + spec_secondary(file, lines, d.sec_loc, d.sec_label)
        + spec_tail(d.msg, d.sugg)
    }
}

/// Renders diagnostics as human-readable blocks with source context. The
/// reporter holds the file path and the source lines; the rendered blocks are
/// returned as strings so the caller can write them wherever it wants.
#[derive(Clone)]
pub struct ErrorReporter {
    file_path: String,
    source_lines: Vec<String>,
}

impl ErrorReporter {
    pub closed spec fn file_v(&self) -> Seq<char> {
        self.file_path@
    }

    pub closed spec fn lines_v(&self) -> Seq<Seq<char>> {
        self.source_lines@.map_values(|l: String| l@)
    }

    /// Builds a reporter for the given file path from the source text itself;
    /// reading the file is the caller's business.
    pub fn new(file_path: &str, source: &str) -> (r: Self)
        ensures
            r.file_v() == file_path@,
            r.lines_v() == spec_lines(source@),
    {
        ErrorReporter {
            file_path: String::from_str(file_path),
            source_lines: split_lines(source),
        }
    }

    /// Renders one `"  N | content"` line into `out`.
    fn push_line_block(&self, out: &mut String, num: usize, content: &String)
        ensures
            final(out)@ == old(out)@ + spec_line_block(num as nat, content@),
    {
        out.append("  ");
        let n = usize_dec(num);
        out.append(n.as_str());
        out.append(" | ");
        out.append(content.as_str());
        out.append("\n");
    }

    /// Renders the caret line for `content` at 1-based column `col`.
    fn push_caret_line(&self, out: &mut String, num: usize, col: usize, content: &String)
        ensures
            final(out)@ == old(out)@ + spec_caret_line(num as nat, col as nat, content@),
    {
        let spaces: usize = if col > 0 { col - 1 } else { 0 };
        let chars = str_to_chars(content.as_str());
        let width: usize;
        if col > 0 && col <= chars.len() {
            let mut w: usize = 0;
            while spaces + w < chars.len() && is_word_char(chars[spaces + w])
                invariant
                    spaces + w <= chars.len(),
                    spaces == col - 1,
                    col <= chars.len(),
                    chars@ == content@,
                    forall|j: int| 0 <= j < w ==> spec_is_word_char(content@.skip(spaces as int)[j]),
                decreases chars.len() - spaces - w,
            {
                assert(content@.skip(spaces as int)[w as int] == content@[spaces + w]);
                w = w + 1;
            }
            proof {
                if spaces + w < chars.len() {
                    assert(!spec_is_word_char(content@.skip(spaces as int)[w as int]));
                }
                lemma_leading_word_at(content@.skip(spaces as int), w as int);
            }
            width = if w == 0 { 1 } else { w };
        } else {
            width = 1;
        }
        let n = crate::text::usize_dec_chars(num);
        let ghost margin: nat = (spec_dec(num as nat).len() + 3) as nat;
        let pad1 = repeat_char(' ', n.len());
        let pad1_s = chars_to_string(&pad1);
        out.append("   ");
        out.append(pad1_s.as_str());
        let pad2 = repeat_char(' ', spaces);
        let pad2_s = chars_to_string(&pad2);
        out.append(pad2_s.as_str());
        proof {
            reveal_strlit("   ");
            crate::text::lemma_repeat_props(' ', 3nat);
            assert("   "@ =~= spec_repeat(' ', 3));
            crate::text::lemma_repeat_add(' ', 3nat, spec_dec(num as nat).len());
            crate::text::lemma_repeat_add(' ', margin, spaces as nat);
            assert("   "@ + pad1@ + pad2@ =~= spec_repeat(' ', margin + spaces as nat));
        }
        let carets = repeat_char('^', width);
        let carets_s = chars_to_string(&carets);
        out.append(carets_s.as_str());
        out.append("\n");
    }

    /// Renders the context block around a location (previous line, the line,
    /// the caret, the next line), or nothing when the line is out of range.
    fn push_context(&self, out: &mut String, loc: SourceLocation)
        ensures
            final(out)@ == old(out)@ + spec_context(self.lines_v(), loc),
    {
        if loc.line > 0 && loc.line <= self.source_lines.len() {
            if loc.line > 1 {
                let prev = &self.source_lines[loc.line - 2];
                self.push_line_block(out, loc.line - 1, prev);
            }
            let cur = &self.source_lines[loc.line - 1];
            self.push_line_block(out, loc.line, cur);
            self.push_caret_line(out, loc.line, loc.column, cur);
            if loc.line < self.source_lines.len() {
                let next = &self.source_lines[loc.line];
                self.push_line_block(out, loc.line + 1, next);
            }
        }
    }

    /// Renders the `file:line:col:` header part.
    fn push_at_header(&self, out: &mut String, loc: SourceLocation)
        ensures
            final(out)@ == old(out)@ + spec_at_header(self.file_v(), loc),
    {
        out.append(self.file_path.as_str());
        out.append(":");
        let l = usize_dec(loc.line);
        out.append(l.as_str());
        out.append(":");
        let c = usize_dec(loc.column);
        out.append(c.as_str());
        out.append(":\n");
    }

    /// Renders the optional suggestion line.
    fn push_sugg(&self, out: &mut String, sugg: &Option<String>)
        ensures
            final(out)@ == old(out)@ + (match *sugg {
                Some(s) => "\u{1f4a1} Suggestion: "@ + s@ + "\n"@,
                None => Seq::<char>::empty(),
            }),
    {
        match sugg {
            Some(s) => {
                out.append("\u{1f4a1} Suggestion: ");
                out.append(s.as_str());
                out.append("\n");
            },
            None => {},
        }
    }

    /// Renders the secondary-location block, when there is one in range.
    fn push_secondary(
        &self,
        out: &mut String,
        sec_loc: &Option<SourceLocation>,
        sec_label: &Option<String>,
    )
        ensures
            final(out)@ == old(out)@ + spec_secondary(
                self.file_v(),
                self.lines_v(),
                *sec_loc,
                match *sec_label { Some(l) => Some(l@), None => None },
            ),
    {
        match sec_loc {
            Some(sl) => {
                if !sl.is_unknown() && sl.line > 0 && sl.line <= self.source_lines.len() {
                    out.append("\n\u{1f4cc} ");
                    match sec_label {
                        Some(l) => out.append(l.as_str()),
                        None => out.append("Note: defined here"),
                    }
                    out.append(" at ");
                    self.push_at_header(out, *sl);
                    self.push_context(out, *sl);
                }
            },
            None => {},
        }
    }

    /// Renders one diagnostic as a block of text: header, source context with
    /// a caret, the optional secondary context, the message, and the optional
    /// suggestion.
    pub fn render(&self, d: &Diagnostic) -> (r: String)
        ensures
            r@ == spec_render(self.file_v(), self.lines_v(), d@),
    {
        let mut out = String::new();
        if d.location.is_unknown() {
            out.append("\u{274c} Error: ");
            out.append(d.message.as_str());
            out.append("\n");
            self.push_sugg(&mut out, &d.suggestion);
            out.append("\n");
            return out;
        }
        out.append("\u{274c} Error at ");
        self.push_at_header(&mut out, d.location);
        self.push_context(&mut out, d.location);
        self.push_secondary(&mut out, &d.secondary_location, &d.secondary_label);
        out.append("\n");
        out.append(d.message.as_str());
        out.append("\n");
        self.push_sugg(&mut out, &d.suggestion);
        out.append("\n");
        out
    }

    /// Renders a located message without a secondary location; the rendered
    /// block is returned rather than printed.
    pub fn report_error(&self, location: SourceLocation, message: &str, suggestion: Option<&String>) -> (r: String)
        ensures
            r@ == spec_render(self.file_v(), self.lines_v(), DiagV {
                loc: location,
                msg: message@,
                sugg: match suggestion { Some(s) => Some(s@), None => None },
                sec_loc: None,
                sec_label: None,
            }),
    {
        let d = Diagnostic {
            location,
            message: String::from_str(message),
            suggestion: match suggestion {
                Some(s) => Some(s.clone()),
                None => None,
            },
            secondary_location: None,
            secondary_label: None,
        };
        self.render(&d)
    }

    /// Renders a located message together with a secondary location and its
    /// label; the rendered block is returned rather than printed.
    pub fn report_error_with_secondary(
        &self,
        location: SourceLocation,
        message: &str,
        suggestion: Option<&String>,
        secondary_location: Option<SourceLocation>,
        secondary_label: Option<&String>,
    ) -> (r: String)
        ensures
            r@ == spec_render(self.file_v(), self.lines_v(), DiagV {
                loc: location,
                msg: message@,
                sugg: match suggestion { Some(s) => Some(s@), None => None },
                sec_loc: secondary_location,
                sec_label: match secondary_label { Some(s) => Some(s@), None => None },
            }),
    {
        let d = Diagnostic {
            location,
            message: String::from_str(message),
            suggestion: match suggestion {
                Some(s) => Some(s.clone()),
                None => None,
            },
            secondary_location,
            secondary_label: match secondary_label {
                Some(s) => Some(s.clone()),
                None => None,
            },
        };
        self.render(&d)
    }
}

} // verus!
