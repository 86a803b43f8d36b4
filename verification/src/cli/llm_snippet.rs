//! Source excerpts around a finding, for Markdown output meant for coding
//! assistants.
use vstd::prelude::*;
use crate::domain::SourceLocation;
use crate::text::{
    append_padded, append_str, contains_str, decimal, decimal_len, decimal_string,
    ends_with_str, lines_of, pad_left, split_lines, string_views, contains_seq,
    ends_with_seq,
};

verus! {

/// The longest excerpt shown whole; a longer one is shown by its head and its
/// tail around an elision line.
pub const MAX_CONTEXT_SNIPPET_LINES: usize = 32;

// ---------------------------------------------------------------------------
// The plain excerpt
/// Adds one line to an excerpt: a newline goes between lines, but not after
/// an excerpt that is still empty.
pub open spec fn glue(acc: Seq<char>, line: Seq<char>) -> Seq<char> {
    if acc.len() == 0 {
        line
    } else {
        acc + "\n"@ + line
    }
}

/// The lines glued in order.
pub open spec fn glue_all(ls: Seq<Seq<char>>) -> Seq<char>
    decreases ls.len(),
{
    if ls.len() == 0 {
        Seq::empty()
    } else {
        glue(glue_all(ls.drop_last()), ls.last())
    }
}

/// The lines numbered `start..=end` (1-based) among `lines`, as far as they exist.
pub open spec fn window(lines: Seq<Seq<char>>, start: int, end: int) -> Seq<Seq<char>> {
    if start - 1 >= lines.len() || end < start {
        Seq::empty()
    } else {
        lines.subrange(start - 1, if end < lines.len() {
            end
        } else {
            lines.len() as int
        })
    }
}

/// The excerpt of `source` for a finding on lines `line_start..=line_end`: the
/// lines from `max(line_start, 1)` to `max(line_end, that start)`, glued, or
/// nothing when that text is empty.
pub open spec fn spec_source_snippet(source: Seq<char>, line_start: usize, line_end: usize) -> Option<
    Seq<char>,
> {
    let start: int = if line_start < 1 {
        1
    } else {
        line_start as int
    };
    let end: int = if line_end < start {
        start
    } else {
        line_end as int
    };
    let text = glue_all(window(lines_of(source), start, end));
    if text.len() == 0 {
        None
    } else {
        Some(text)
    }
}

/// The exact lines of the finding at `location`, read from `source` (the
/// text of the file it names).
pub fn source_snippet(source: &str, location: &SourceLocation) -> (r: Option<String>)
    ensures
        match r {
            Some(s) => spec_source_snippet(source@, location.line_start, location.line_end)
                == Some(s@),
            None => spec_source_snippet(source@, location.line_start, location.line_end)
                is None,
        },
{
    let lines = split_lines(source);
    let ghost lv = lines_of(source@);
    let start: usize = if location.line_start < 1 {
        1
    } else {
        location.line_start
    };
    let end: usize = if location.line_end < start {
        start
    } else {
        location.line_end
    };
    let mut snippet = String::new();
    if start - 1 < lines.len() {
        let stop: usize = if end < lines.len() {
            end
        } else {
            lines.len()
        };
        let ghost w = window(lv, start as int, end as int);
        assert(w =~= lv.subrange(start - 1, stop as int));
        let mut i: usize = start - 1;
        while i < stop
            invariant
                start - 1 <= i <= stop <= lines.len(),
                snippet@ == glue_all(w.take(i - (start - 1))),
            decreases stop - i,
        {
            assert(w.take(i + 1 - (start - 1)).drop_last() =~= w.take(i - (start - 1)));
            assert(w[i - (start - 1)] == lines@[i as int]@);
            if !snippet.as_str().is_empty() {
                append_str(&mut snippet, "\n");
            }
            append_str(&mut snippet, lines[i].as_str());
            i += 1;
        }
        assert(w.take(stop - (start - 1)) =~= w);
    }
    if snippet.as_str().is_empty() {
        None
    } else {
        Some(snippet)
    }
}

// ---------------------------------------------------------------------------
// The excerpt with context
/// The lines of a finding and the lines of the excerpt around it.
#[derive(Clone, Copy)]
pub struct ContextSnippetRange {
    pub finding_start: usize,
    pub finding_end: usize,
    pub snippet_start: usize,
    pub snippet_end: usize,
}

impl ContextSnippetRange {
    /// The range nests within a file of `line_count` lines:
    /// `1 <= snippet_start <= finding_start <= finding_end <= snippet_end <= line_count`.
    pub open spec fn nests_in(self, line_count: nat) -> bool {
        1 <= self.snippet_start <= self.finding_start <= self.finding_end <= self.snippet_end
            <= line_count
    }

    /// The range `new` computes for a finding on `line_start..=line_end` in a
    /// file of `line_count` lines, with `context_lines` around it.
    pub open spec fn spec_new(
        line_start: usize,
        line_end: usize,
        line_count: usize,
        context_lines: usize,
    ) -> ContextSnippetRange {
        let finding_start = line_start;
        let fe: int = if line_end < finding_start {
            finding_start as int
        } else {
            line_end as int
        };
        let finding_end: int = if fe < line_count {
            fe
        } else {
            line_count as int
        };
        let ss: int = if finding_start < context_lines {
            0
        } else {
            finding_start - context_lines
        };
        let snippet_start: int = if ss < 1 {
            1
        } else {
            ss
        };
        let se: int = if finding_end + context_lines > usize::MAX {
            usize::MAX as int
        } else {
            finding_end + context_lines
        };
        let snippet_end: int = if se < line_count {
            se
        } else {
            line_count as int
        };
        ContextSnippetRange {
            finding_start,
            finding_end: finding_end as usize,
            snippet_start: snippet_start as usize,
            snippet_end: snippet_end as usize,
        }
    }

    /// The range of the excerpt for the finding at `location`, in a file of
    /// `line_count` lines, with `context_lines` lines of context on each
    /// side, clipped to the file; `None` when the finding does not start on
    /// a line of the file.
    pub fn new(location: &SourceLocation, line_count: usize, context_lines: usize) -> (r: Option<
        ContextSnippetRange,
    >)
        ensures
            r is None <==> (line_count == 0 || location.line_start == 0 || location.line_start
                > line_count),
            r matches Some(x) ==> x == Self::spec_new(
                location.line_start,
                location.line_end,
                line_count,
                context_lines,
            ) && x.nests_in(line_count as nat),
    {
        if line_count == 0 || location.line_start == 0 || location.line_start > line_count {
            return None;
        }
        let finding_start = location.line_start;
        let fe = if location.line_end < finding_start {
            finding_start
        } else {
            location.line_end
        };
        let finding_end = if fe < line_count {
            fe
        } else {
            line_count
        };
        let ss = finding_start.saturating_sub(context_lines);
        let snippet_start = if ss < 1 {
            1
        } else {
            ss
        };
        let se = finding_end.saturating_add(context_lines);
        let snippet_end = if se < line_count {
            se
        } else {
            line_count
        };
        Some(ContextSnippetRange { finding_start, finding_end, snippet_start, snippet_end })
    }

    /// The number of lines of the excerpt.
    pub fn total_lines(self) -> (r: usize)
        requires
            self.snippet_start <= self.snippet_end,
            self.snippet_end - self.snippet_start < usize::MAX,
        ensures
            r == self.snippet_end - self.snippet_start + 1,
    {
        self.snippet_end - self.snippet_start + 1
    }

    /// The width of the widest line number of the excerpt: the number of
    /// decimal digits of its last line number.
    pub fn line_number_width(self) -> (r: usize)
        ensures
            r == decimal(self.snippet_end as nat).len(),
    {
        decimal_len(self.snippet_end)
    }
}

/// One excerpt line: `>` for a line of the finding, else a space; then the
/// line number right-aligned to `width`, a bar, the source line and a newline.
pub open spec fn context_line_text(
    line: Seq<char>,
    line_number: int,
    width: nat,
    finding_start: int,
    finding_end: int,
) -> Seq<char> {
    (if finding_start <= line_number <= finding_end {
        ">"@
    } else {
        " "@
    }) + " "@ + pad_left(decimal(line_number as nat), width) + " | "@ + line + "\n"@
}

/// The excerpt lines numbered `first..=last`.
pub open spec fn context_lines_text(
    lines: Seq<Seq<char>>,
    first: int,
    last: int,
    width: nat,
    finding_start: int,
    finding_end: int,
) -> Seq<char>
    decreases last - first + 1,
{
    if last < first {
        Seq::empty()
    } else {
        context_lines_text(lines, first, last - 1, width, finding_start, finding_end)
            + context_line_text(lines[last - 1], last, width, finding_start, finding_end)
    }
}

/// The elision line: `...` in the number column and in the text column.
pub open spec fn elision_text(width: nat) -> Seq<char> {
    "  "@ + pad_left("..."@, width) + " | ...\n"@
}

/// The excerpt text for `range` over `lines`: all its lines when it has at
/// most `MAX_CONTEXT_SNIPPET_LINES` of them; else the first and the last half
/// of that many, with the elision line between them.
pub open spec fn context_snippet_text(lines: Seq<Seq<char>>, range: ContextSnippetRange) -> Seq<
    char,
> {
    let width = decimal(range.snippet_end as nat).len();
    let half = MAX_CONTEXT_SNIPPET_LINES / 2;
    let fs = range.finding_start as int;
    let fe = range.finding_end as int;
    if range.snippet_end - range.snippet_start + 1 <= MAX_CONTEXT_SNIPPET_LINES {
        context_lines_text(lines, range.snippet_start as int, range.snippet_end as int, width, fs, fe)
    } else {
        context_lines_text(
            lines,
            range.snippet_start as int,
            range.snippet_start + half - 1,
            width,
            fs,
            fe,
        ) + elision_text(width) + context_lines_text(
            lines,
            range.snippet_end - (MAX_CONTEXT_SNIPPET_LINES - half) + 1,
            range.snippet_end as int,
            width,
            fs,
            fe,
        )
    }
}

/// The excerpt with context for a finding on `line_start..=line_end` with
/// `context_lines` of context, over the text `source`.
pub open spec fn spec_source_snippet_with_context(
    source: Seq<char>,
    line_start: usize,
    line_end: usize,
    context_lines: usize,
) -> Option<Seq<char>> {
    let lines = lines_of(source);
    if lines.len() == 0 || line_start == 0 || line_start > lines.len() {
        None
    } else {
        Some(
            context_snippet_text(
                lines,
                ContextSnippetRange::spec_new(
                    line_start,
                    line_end,
                    lines.len() as usize,
                    context_lines,
                ),
            ),
        )
    }
}

/// Writes one excerpt line for line `line_number` of `lines`.
pub fn write_context_line(
    snippet: &mut String,
    lines: &Vec<String>,
    line_number: usize,
    line_number_width: usize,
    finding_start: usize,
    finding_end: usize,
) -> (r: Option<()>)
    requires
        1 <= line_number <= lines.len(),
    ensures
        r is Some,
        final(snippet)@ == old(snippet)@ + context_line_text(
            lines@[line_number - 1]@,
            line_number as int,
            line_number_width as nat,
            finding_start as int,
            finding_end as int,
        ),
{
    let ghost start = snippet@;
    if finding_start <= line_number && line_number <= finding_end {
        append_str(snippet, ">");
    } else {
        append_str(snippet, " ");
    }
    append_str(snippet, " ");
    let number = decimal_string(line_number);
    append_padded(snippet, number.as_str(), line_number_width);
    append_str(snippet, " | ");
    append_str(snippet, lines[line_number - 1].as_str());
    append_str(snippet, "\n");
    assert(snippet@ =~= start + context_line_text(
        lines@[line_number - 1]@,
        line_number as int,
        line_number_width as nat,
        finding_start as int,
        finding_end as int,
    ));
    Some(())
}

/// Writes the excerpt lines numbered `first..=last` for `range`.
pub fn write_context_lines(
    snippet: &mut String,
    lines: &Vec<String>,
    first: usize,
    last: usize,
    range: ContextSnippetRange,
) -> (r: Option<()>)
    requires
        last < first || (1 <= first && last <= lines.len()),
    ensures
        r is Some,
        final(snippet)@ == old(snippet)@ + context_lines_text(
            string_views(lines@),
            first as int,
            last as int,
            decimal(range.snippet_end as nat).len(),
            range.finding_start as int,
            range.finding_end as int,
        ),
{
    let line_number_width = range.line_number_width();
    let ghost lv = string_views(lines@);
    let ghost start = snippet@;
    let ghost w = decimal(range.snippet_end as nat).len();
    let ghost fs = range.finding_start as int;
    let ghost fe = range.finding_end as int;
    if last < first {
        assert(snippet@ =~= start + context_lines_text(lv, first as int, last as int, w, fs, fe));
        return Some(());
    }
    let mut line_number = first;
    loop
        invariant
            first <= line_number <= last,
            1 <= first,
            last <= lines.len(),
            line_number_width == w,
            snippet@ == start + context_lines_text(
                lv,
                first as int,
                line_number - 1,
                w,
                fs,
                fe,
            ),
        decreases last - line_number,
    {
        assert(lv[line_number - 1] == lines@[line_number - 1]@);
        write_context_line(
            snippet,
            lines,
            line_number,
            line_number_width,
            range.finding_start,
            range.finding_end,
        );
        assert(snippet@ =~= start + context_lines_text(
            lv,
            first as int,
            line_number as int,
            w,
            fs,
            fe,
        ));
        if line_number == last {
            return Some(());
        }
        line_number += 1;
    }
}

/// Writing the excerpt lines `a..=b` and then `b+1..=c` writes the same text
/// as writing `a..=c` at once.
pub proof fn law_context_lines_split(
    lines: Seq<Seq<char>>,
    a: int,
    b: int,
    c: int,
    width: nat,
    finding_start: int,
    finding_end: int,
)
    requires
        a <= b + 1,
        b <= c,
    ensures
        context_lines_text(lines, a, b, width, finding_start, finding_end) + context_lines_text(
            lines,
            b + 1,
            c,
            width,
            finding_start,
            finding_end,
        ) == context_lines_text(lines, a, c, width, finding_start, finding_end),
    decreases c - b,
{
    if c == b {
        assert(context_lines_text(lines, b + 1, c, width, finding_start, finding_end)
            == Seq::<char>::empty());
        assert(context_lines_text(lines, a, b, width, finding_start, finding_end)
            + Seq::<char>::empty() =~= context_lines_text(
            lines,
            a,
            b,
            width,
            finding_start,
            finding_end,
        ));
    } else {
        law_context_lines_split(lines, a, b, c - 1, width, finding_start, finding_end);
        let head = context_lines_text(lines, a, b, width, finding_start, finding_end);
        let mid = context_lines_text(lines, b + 1, c - 1, width, finding_start, finding_end);
        let last = context_line_text(lines[c - 1], c, width, finding_start, finding_end);
        assert(head + (mid + last) =~= (head + mid) + last);
    }
}

/// Writes an excerpt too long to show whole: the first and the last half of
/// `MAX_CONTEXT_SNIPPET_LINES` lines of `range`'s excerpt around an elision
/// line.
pub fn write_elided_context_snippet(
    snippet: &mut String,
    lines: &Vec<String>,
    range: ContextSnippetRange,
) -> (r: Option<()>)
    requires
        1 <= range.snippet_start,
        range.snippet_start + MAX_CONTEXT_SNIPPET_LINES / 2 - 1 <= lines.len(),
        MAX_CONTEXT_SNIPPET_LINES - MAX_CONTEXT_SNIPPET_LINES / 2 <= range.snippet_end <= lines.len(),
    ensures
        r is Some,
        final(snippet)@ == old(snippet)@ + context_lines_text(
            string_views(lines@),
            range.snippet_start as int,
            range.snippet_start + MAX_CONTEXT_SNIPPET_LINES / 2 - 1,
            decimal(range.snippet_end as nat).len(),
            range.finding_start as int,
            range.finding_end as int,
        ) + elision_text(decimal(range.snippet_end as nat).len()) + context_lines_text(
            string_views(lines@),
            range.snippet_end - (MAX_CONTEXT_SNIPPET_LINES - MAX_CONTEXT_SNIPPET_LINES / 2) + 1,
            range.snippet_end as int,
            decimal(range.snippet_end as nat).len(),
            range.finding_start as int,
            range.finding_end as int,
        ),
        range.snippet_end - range.snippet_start + 1 > MAX_CONTEXT_SNIPPET_LINES ==> final(snippet)@
            == old(snippet)@ + context_snippet_text(string_views(lines@), range),
{
    let ghost start = snippet@;
    let leading_lines = MAX_CONTEXT_SNIPPET_LINES / 2;
    let trailing_lines = MAX_CONTEXT_SNIPPET_LINES - leading_lines;
    let leading_end = range.snippet_start + (leading_lines - 1);
    let trailing_start = range.snippet_end - trailing_lines + 1;
    let line_number_width = range.line_number_width();
    write_context_lines(snippet, lines, range.snippet_start, leading_end, range);
    append_str(snippet, "  ");
    append_padded(snippet, "...", line_number_width);
    append_str(snippet, " | ...\n");
    let r = write_context_lines(snippet, lines, trailing_start, range.snippet_end, range);
    assert(snippet@ =~= start + context_lines_text(
        string_views(lines@),
        range.snippet_start as int,
        range.snippet_start + MAX_CONTEXT_SNIPPET_LINES / 2 - 1,
        decimal(range.snippet_end as nat).len(),
        range.finding_start as int,
        range.finding_end as int,
    ) + elision_text(decimal(range.snippet_end as nat).len()) + context_lines_text(
        string_views(lines@),
        range.snippet_end - (MAX_CONTEXT_SNIPPET_LINES - MAX_CONTEXT_SNIPPET_LINES / 2) + 1,
        range.snippet_end as int,
        decimal(range.snippet_end as nat).len(),
        range.finding_start as int,
        range.finding_end as int,
    ));
    r
}

/// The excerpt of the finding at `location` with `context_lines` lines of
/// context on each side, read from `source` (the text of the file it names):
/// each line numbered, the finding's lines marked with `>`, and an excerpt of
/// more than `MAX_CONTEXT_SNIPPET_LINES` lines elided in the middle. `None`
/// when the finding does not start on a line of the file.
pub fn source_snippet_with_context(
    source: &str,
    location: &SourceLocation,
    context_lines: usize,
) -> (r: Option<String>)
    ensures
        match r {
            Some(s) => spec_source_snippet_with_context(
                source@,
                location.line_start,
                location.line_end,
                context_lines,
            ) == Some(s@),
            None => spec_source_snippet_with_context(
                source@,
                location.line_start,
                location.line_end,
                context_lines,
            ) is None,
        },
{
    let lines = split_lines(source);
    let ghost lv = string_views(lines@);
    assert(lv.len() == lines@.len());
    let range = match ContextSnippetRange::new(location, lines.len(), context_lines) {
        Some(range) => range,
        None => {
            return None;
        },
    };
    let mut snippet = String::new();
    if range.total_lines() <= MAX_CONTEXT_SNIPPET_LINES {
        write_context_lines(&mut snippet, &lines, range.snippet_start, range.snippet_end, range);
    } else {
        write_elided_context_snippet(&mut snippet, &lines, range);
    }
    assert(snippet@ =~= context_snippet_text(lv, range));
    Some(snippet)
}

// ---------------------------------------------------------------------------
// Fenced code blocks
/// The fence for `code`: four backticks when the code holds three in a row,
/// else three.
pub open spec fn fence_for(code: Seq<char>) -> Seq<char> {
    if contains_seq(code, "```"@) {
        "````"@
    } else {
        "```"@
    }
}

/// A fenced Markdown code block: the fence and the language, the code, a
/// newline unless the code ends with one, and the closing fence.
pub open spec fn spec_fenced_code(language: Seq<char>, code: Seq<char>) -> Seq<char> {
    fence_for(code) + language + "\n"@ + code + (if ends_with_seq(code, "\n"@) {
        Seq::empty()
    } else {
        "\n"@
    }) + fence_for(code) + "\n"@
}

/// The fenced Markdown code block for `code` in `language`.
pub fn fenced_code(language: &str, code: &str) -> (r: String)
    ensures
        r@ == spec_fenced_code(language@, code@),
{
    let fence = if contains_str(code, "```") {
        "````"
    } else {
        "```"
    };
    let mut out = String::new();
    append_str(&mut out, fence);
    append_str(&mut out, language);
    append_str(&mut out, "\n");
    append_str(&mut out, code);
    if !ends_with_str(code, "\n") {
        append_str(&mut out, "\n");
    }
    append_str(&mut out, fence);
    append_str(&mut out, "\n");
    assert(out@ =~= spec_fenced_code(language@, code@));
    out
}

} // verus!
