use vstd::prelude::*;
use crate::output::Line;
use crate::text::{chars_of, string_from_chars};

verus! {

/// The colour role of a painted cell; the configuration maps each to a colour.
#[derive(Clone, Copy, PartialEq, Eq, Structural, Debug)]
pub enum Role {
    Time,
    Info,
    Warn,
    Error,
    Severe,
    Fatal,
    Other,
    Text,
    Plain,
    Header,
    Truncate,
    Prompt,
    Status,
}

/// A run of text painted in one role.
#[derive(Clone, Debug)]
pub struct Span {
    pub text: String,
    pub role: Role,
}

/// The pieces of a structured log line: time, severity and message.
pub uninterp spec fn log_parts(line: Seq<char>) -> Option<(Seq<char>, Seq<char>, Seq<char>)>;

/// The compiled tokenizer for `[HH:MM:SS] [source/SEVERITY]: message`.
pub struct LogPattern {
    re: regex::Regex,
}

/// Relies on `regex::Regex::new` accepting the fixed log-line pattern.
#[verifier::external_body]
fn compile_log_pattern() -> regex::Regex {
    regex::Regex::new(r"^\[(\d\d:\d\d:\d\d)] \[([^/]+)/([A-Z]+)]: (.*)$").unwrap()
}

/// Relies on `regex::Regex::captures` with the pattern that `LogPattern::new`
/// compiled: groups one, three and four (time, severity, message) always take
/// part in a match.
#[verifier::external_body]
fn log_captures(p: &LogPattern, line: &str) -> (r: Option<(String, String, String)>)
    ensures
        log_parts(line@) == parts_view(r),
{
    p.re.captures(line).map(|c| (c[1].to_string(), c[3].to_string(), c[4].to_string()))
}

/// The role of a severity keyword; unknown keywords get `Other`.
pub open spec fn severity_role_of(s: Seq<char>) -> Role {
    if s == seq!['I', 'N', 'F', 'O'] {
        Role::Info
    } else if s == seq!['W', 'A', 'R', 'N'] {
        Role::Warn
    } else if s == seq!['E', 'R', 'R', 'O', 'R'] {
        Role::Error
    } else if s == seq!['S', 'E', 'V', 'E', 'R', 'E'] {
        Role::Severe
    } else if s == seq!['F', 'A', 'T', 'A', 'L'] {
        Role::Fatal
    } else {
        Role::Other
    }
}

/// The role of a severity keyword; unknown keywords get `Other`.
pub fn severity_role(s: &String) -> (r: Role)
    ensures
        r == severity_role_of(s@),
{
    let info = "INFO".to_owned();
    let warn = "WARN".to_owned();
    let error = "ERROR".to_owned();
    let severe = "SEVERE".to_owned();
    let fatal = "FATAL".to_owned();
    proof {
        reveal_strlit("INFO");
        reveal_strlit("WARN");
        reveal_strlit("ERROR");
        reveal_strlit("SEVERE");
        reveal_strlit("FATAL");
        assert(info@ =~= seq!['I', 'N', 'F', 'O']);
        assert(warn@ =~= seq!['W', 'A', 'R', 'N']);
        assert(error@ =~= seq!['E', 'R', 'R', 'O', 'R']);
        assert(severe@ =~= seq!['S', 'E', 'V', 'E', 'R', 'E']);
        assert(fatal@ =~= seq!['F', 'A', 'T', 'A', 'L']);
    }
    if *s == info {
        Role::Info
    } else if *s == warn {
        Role::Warn
    } else if *s == error {
        Role::Error
    } else if *s == severe {
        Role::Severe
    } else if *s == fatal {
        Role::Fatal
    } else {
        Role::Other
    }
}

/// The view of a span: its characters and role.
pub open spec fn span_view(s: Span) -> (Seq<char>, Role) {
    (s.text@, s.role)
}

/// The spans of a log line, given what the tokenizer found in it: time,
/// severity, message with separators, or the whole line as plain text.
pub open spec fn spans_of(line: Seq<char>, parts: Option<(Seq<char>, Seq<char>, Seq<char>)>) -> Seq<
    (Seq<char>, Role),
> {
    match parts {
        Some((time, sev, msg)) => seq![
            (time, Role::Time),
            (seq![' '], Role::Plain),
            (sev, severity_role_of(sev)),
            (seq![':', ' '], Role::Plain),
            (msg, Role::Text),
        ],
        None => seq![(line, Role::Text)],
    }
}

/// The view of the tokenizer's result.
pub open spec fn parts_view(p: Option<(String, String, String)>) -> Option<(Seq<char>, Seq<char>, Seq<char>)> {
    match p {
        Some(t) => Some((t.0@, t.1@, t.2@)),
        None => None,
    }
}

/// Builds the spans of a log line from the tokenizer's result.
pub fn spans_from_parts(line: &str, parts: Option<(String, String, String)>) -> (r: Vec<Span>)
    ensures
        r@.map_values(|s: Span| span_view(s)) == spans_of(line@, parts_view(parts)),
{
    let ghost want = spans_of(line@, parts_view(parts));
    let mut r: Vec<Span> = Vec::new();
    match parts {
        Some((time, sev, msg)) => {
            let role = severity_role(&sev);
            let sp = " ".to_owned();
            let colon = ": ".to_owned();
            proof {
                reveal_strlit(" ");
                reveal_strlit(": ");
                assert(sp@ =~= seq![' ']);
                assert(colon@ =~= seq![':', ' ']);
            }
            r.push(Span { text: time, role: Role::Time });
            r.push(Span { text: sp, role: Role::Plain });
            r.push(Span { text: sev, role });
            r.push(Span { text: colon, role: Role::Plain });
            r.push(Span { text: msg, role: Role::Text });
        },
        None => {
            r.push(Span { text: line.to_owned(), role: Role::Text });
        },
    }
    proof {
        assert(r@.map_values(|s: Span| span_view(s)) =~= want);
    }
    r
}

impl LogPattern {
    pub fn new() -> LogPattern {
        LogPattern { re: compile_log_pattern() }
    }

    /// Splits a log line into coloured spans.
    pub fn format_log(&self, line: &str) -> (r: Vec<Span>)
        ensures
            r@.map_values(|s: Span| span_view(s)) == spans_of(line@, log_parts(line@)),
    {
        let parts = log_captures(self, line);
        spans_from_parts(line, parts)
    }
}


/// The cells of a sequence of spans, each character with its span's role.
pub open spec fn flat_cells(spans: Seq<(Seq<char>, Role)>) -> Seq<(char, Role)>
    decreases spans.len(),
{
    if spans.len() == 0 {
        Seq::empty()
    } else {
        flat_cells(spans.drop_last()) + spans.last().0.map_values(|c: char| (c, spans.last().1))
    }
}

/// Cell `i` of a row of `width` cells showing `all` shifted left by `hscroll`:
/// cut sides carry their truncation glyph (the right one painted last), and
/// the rest of the row is blank.
pub open spec fn row_cell(
    all: Seq<(char, Role)>,
    hscroll: nat,
    width: nat,
    tl: Seq<char>,
    tr: Seq<char>,
    i: int,
) -> (char, Role) {
    let left = hscroll > 0 && all.len() > 0;
    let right = hscroll + width < all.len();
    let rstart = width - tr.len();
    if right && i >= rstart {
        (tr[i - rstart], Role::Truncate)
    } else if left && i < tl.len() {
        (tl[i], Role::Truncate)
    } else if hscroll + i < all.len() {
        all[hscroll + i]
    } else {
        (' ', Role::Plain)
    }
}

/// Puts each character of the spans in a cell of its span's role.
fn cells_of(spans: &Vec<Span>) -> (r: Vec<(char, Role)>)
    ensures
        r@ == flat_cells(spans@.map_values(|s: Span| span_view(s))),
{
    let ghost sv = spans@.map_values(|s: Span| span_view(s));
    let mut r: Vec<(char, Role)> = Vec::new();
    let mut k: usize = 0;
    while k < spans.len()
        invariant
            k <= spans@.len(),
            sv == spans@.map_values(|s: Span| span_view(s)),
            r@ == flat_cells(sv.subrange(0, k as int)),
        decreases spans.len() - k,
    {
        let role = spans[k].role;
        let cs = chars_of(spans[k].text.as_str());
        let ghost base = r@;
        let mut j: usize = 0;
        while j < cs.len()
            invariant
                j <= cs@.len(),
                r@ == base + cs@.subrange(0, j as int).map_values(|c: char| (c, role)),
            decreases cs.len() - j,
        {
            r.push((cs[j], role));
            proof {
                assert(cs@.subrange(0, j + 1).map_values(|c: char| (c, role)) =~= cs@.subrange(
                    0,
                    j as int,
                ).map_values(|c: char| (c, role)).push((cs@[j as int], role)));
            }
            j = j + 1;
        }
        proof {
            assert(cs@.subrange(0, cs@.len() as int) =~= cs@);
            assert(sv.subrange(0, k + 1).drop_last() =~= sv.subrange(0, k as int));
            assert(sv[k as int] == (spans@[k as int].text@, role));
        }
        k = k + 1;
    }
    proof {
        assert(sv.subrange(0, spans@.len() as int) =~= sv);
    }
    r
}

/// Lays out spans on a row of `width` cells, shifted left by `hscroll`,
/// marking each side that is cut with its glyph and blanking the rest.
pub fn layout_row(spans: &Vec<Span>, hscroll: usize, width: usize, tl: &Vec<char>, tr: &Vec<char>) -> (r: Vec<
    (char, Role),
>)
    ensures
        r@.len() == width,
        forall|i: int|
            0 <= i < width ==> #[trigger] r@[i] == row_cell(
                flat_cells(spans@.map_values(|s: Span| span_view(s))),
                hscroll as nat,
                width as nat,
                tl@,
                tr@,
                i,
            ),
{
    let all = cells_of(spans);
    let n = all.len();
    let left = hscroll > 0 && n > 0;
    let right = hscroll < n && width < n - hscroll;
    let rstart: usize = if tr.len() <= width { width - tr.len() } else { 0 };
    let mut r: Vec<(char, Role)> = Vec::new();
    let mut i: usize = 0;
    while i < width
        invariant
            i <= width,
            r@.len() == i,
            all@ == flat_cells(spans@.map_values(|s: Span| span_view(s))),
            n == all@.len(),
            left == (hscroll > 0 && n > 0),
            right == (hscroll + width < n),
            rstart == (if tr@.len() <= width { width - tr@.len() } else { 0 }),
            forall|k: int|
                0 <= k < i ==> #[trigger] r@[k] == row_cell(all@, hscroll as nat, width as nat, tl@, tr@, k),
        decreases width - i,
    {
        let cell = if right && i >= rstart {
            let idx = if tr.len() <= width { i - rstart } else { i + (tr.len() - width) };
            (tr[idx], Role::Truncate)
        } else if left && i < tl.len() {
            (tl[i], Role::Truncate)
        } else if hscroll < n && i < n - hscroll {
            all[hscroll + i]
        } else {
            (' ', Role::Plain)
        };
        r.push(cell);
        i = i + 1;
    }
    r
}

/// The first `n` characters of `s`, padded with spaces to exactly `n`.
pub open spec fn pad_trunc(s: Seq<char>, n: nat) -> Seq<char> {
    Seq::new(n, |i: int| if i < s.len() { s[i] } else { ' ' })
}

fn pad_trunc_exec(s: &Vec<char>, n: usize, out: &mut Vec<char>)
    ensures
        final(out)@ == old(out)@ + pad_trunc(s@, n as nat),
{
    let ghost base = out@;
    let mut i: usize = 0;
    while i < n
        invariant
            i <= n,
            out@ == base + pad_trunc(s@, n as nat).subrange(0, i as int),
        decreases n - i,
    {
        if i < s.len() {
            out.push(s[i]);
        } else {
            out.push(' ');
        }
        proof {
            assert(pad_trunc(s@, n as nat).subrange(0, i + 1) =~= pad_trunc(s@, n as nat).subrange(
                0,
                i as int,
            ).push(pad_trunc(s@, n as nat)[i as int]));
        }
        i = i + 1;
    }
    proof {
        assert(pad_trunc(s@, n as nat).subrange(0, n as int) =~= pad_trunc(s@, n as nat));
    }
}

pub open spec fn sat_sub(a: nat, b: nat) -> nat {
    if a >= b { (a - b) as nat } else { 0 }
}

/// The input row: a prompt, the input line cut or padded to the width, a space.
pub open spec fn input_row_of(input: Seq<char>, width: nat) -> Seq<char> {
    seq![' ', '>', ' '] + pad_trunc(input, sat_sub(width, 4)) + seq![' ']
}

/// The input row and the column of the cursor, just after the typed text.
pub fn input_row(input: &Vec<char>, width: usize) -> (r: (Vec<char>, usize))
    ensures
        r.0@ == input_row_of(input@, width as nat),
        r.1 == if input@.len() + 3 > usize::MAX { usize::MAX as int } else { input@.len() + 3 as int },
{
    let mut out: Vec<char> = vec![' ', '>', ' '];
    let w = if width >= 4 { width - 4 } else { 0 };
    pad_trunc_exec(input, w, &mut out);
    out.push(' ');
    proof {
        assert(out@ =~= input_row_of(input@, width as nat));
    }
    (out, input.len().saturating_add(3))
}

/// The status row: the status text cut or padded to the width, between spaces.
pub open spec fn status_row_of(status: Seq<char>, width: nat) -> Seq<char> {
    seq![' '] + pad_trunc(status, sat_sub(width, 2)) + seq![' ']
}

pub fn status_row(status: &Vec<char>, width: usize) -> (r: Vec<char>)
    ensures
        r@ == status_row_of(status@, width as nat),
{
    let mut out: Vec<char> = vec![' '];
    let w = if width >= 2 { width - 2 } else { 0 };
    pad_trunc_exec(status, w, &mut out);
    out.push(' ');
    proof {
        assert(out@ =~= status_row_of(status@, width as nat));
    }
    out
}

/// The banner of a header row: an arrow and the file name, cut to leave
/// room for the arrow within the width.
pub open spec fn header_text_of(label: Seq<char>, width: nat) -> Seq<char> {
    let n = sat_sub(width, 6);
    seq![' ', '-', '-', '>', ' '] + if label.len() <= n { label } else { label.subrange(0, n as int) }
}

pub fn header_text(label: &str, width: usize) -> (r: String)
    ensures
        r@ == header_text_of(label@, width as nat),
{
    let cs = chars_of(label);
    let n = if width >= 6 { width - 6 } else { 0 };
    let mut out: Vec<char> = vec![' ', '-', '-', '>', ' '];
    let mut i: usize = 0;
    while i < cs.len() && i < n
        invariant
            i <= cs@.len(),
            i <= n,
            cs@ == label@,
            out@ == seq![' ', '-', '-', '>', ' '] + cs@.subrange(0, i as int),
        decreases cs.len() - i,
    {
        out.push(cs[i]);
        proof {
            assert(cs@.subrange(0, i + 1) =~= cs@.subrange(0, i as int).push(cs@[i as int]));
        }
        i = i + 1;
    }
    proof {
        if cs@.len() <= n {
            assert(cs@.subrange(0, cs@.len() as int) =~= cs@);
        }
        assert(out@ =~= header_text_of(label@, width as nat));
    }
    string_from_chars(&out)
}

/// The spans of one buffer entry: a log line is tokenized, a header is a
/// single banner span.
pub open spec fn entry_spans(line: Line, width: nat) -> Seq<(Seq<char>, Role)> {
    match line {
        Line::Log(s) => spans_of(s@, log_parts(s@)),
        Line::Header(h) => seq![(header_text_of(h@, width), Role::Header)],
    }
}

/// How far an entry is shifted: headers ignore the horizontal scroll.
pub open spec fn entry_shift(line: Line, hscroll: nat) -> nat {
    match line {
        Line::Log(_) => hscroll,
        Line::Header(_) => 0,
    }
}

impl LogPattern {
    /// The cells of one row of the log area showing `line`.
    pub fn render_entry(&self, line: &Line, hscroll: usize, width: usize, tl: &Vec<char>, tr: &Vec<char>) -> (r: Vec<
        (char, Role),
    >)
        ensures
            r@.len() == width,
            forall|i: int|
                0 <= i < width ==> #[trigger] r@[i] == row_cell(
                    flat_cells(entry_spans(*line, width as nat)),
                    entry_shift(*line, hscroll as nat),
                    width as nat,
                    tl@,
                    tr@,
                    i,
                ),
    {
        match line {
            Line::Log(s) => {
                let spans = self.format_log(s.as_str());
                layout_row(&spans, hscroll, width, tl, tr)
            },
            Line::Header(h) => {
                let text = header_text(h.as_str(), width);
                let spans = vec![Span { text, role: Role::Header }];
                proof {
                    assert(spans@.map_values(|s: Span| span_view(s)) =~= entry_spans(*line, width as nat));
                }
                layout_row(&spans, 0, width, tl, tr)
            },
        }
    }
}

} // verus!
