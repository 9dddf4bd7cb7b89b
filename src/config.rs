use vstd::prelude::*;
use crate::render::Role;
use crate::text::{chars_of, string_from_chars};

verus! {

/// Text attributes of a colour.
#[derive(Clone, Copy, PartialEq, Eq, Structural, Debug)]
pub struct Style {
    pub bold: bool,
    pub underline: bool,
    pub reverse: bool,
}

/// A foreground colour, background colour and style; colour 0 is the
/// terminal's default.
#[derive(Clone, Copy, PartialEq, Eq, Structural, Debug)]
pub struct Color {
    pub fg: u16,
    pub bg: u16,
    pub sty: Style,
}

pub open spec fn plain_style() -> Style {
    Style { bold: false, underline: false, reverse: false }
}

impl Style {
    pub fn normal() -> (r: Style)
        ensures
            r == plain_style(),
    {
        Style { bold: false, underline: false, reverse: false }
    }

    pub fn bold() -> (r: Style)
        ensures
            r == (Style { bold: true, ..plain_style() }),
    {
        Style { bold: true, underline: false, reverse: false }
    }

    pub fn reverse() -> (r: Style)
        ensures
            r == (Style { reverse: true, ..plain_style() }),
    {
        Style { bold: false, underline: false, reverse: true }
    }
}

impl Color {
    pub fn new(fg: u16, bg: u16, sty: Style) -> (r: Color)
        ensures
            r == (Color { fg, bg, sty }),
    {
        Color { fg, bg, sty }
    }
}

impl Default for Color {
    fn default() -> (r: Color)
        ensures
            r == (Color { fg: 0, bg: 0, sty: plain_style() }),
    {
        Color::new(0, 0, Style::normal())
    }
}

/// Why a colour description was refused.
#[derive(Clone, PartialEq, Eq, Debug)]
pub enum ColorError {
    /// The first word is not a number from 0 to 65535.
    InvalidFg(String),
    /// The second word is not a number from 0 to 65535.
    InvalidBg(String),
    /// The third word holds a character other than `b`, `u` or `r`.
    InvalidStyle(char),
}

/// What `char::is_whitespace` says of a character (Unicode White_Space).
pub uninterp spec fn white_space(c: char) -> bool;

/// Relies on `char::is_whitespace`, which depends on the character alone.
#[verifier::external_body]
fn is_white(c: char) -> (r: bool)
    ensures
        r == white_space(c),
{
    c.is_whitespace()
}

/// Words finished so far and the word being read, scanning `s` from the front.
pub open spec fn split_state(s: Seq<char>) -> (Seq<Seq<char>>, Seq<char>)
    decreases s.len(),
{
    if s.len() == 0 {
        (Seq::empty(), Seq::empty())
    } else {
        let (ws, cur) = split_state(s.drop_last());
        let c = s.last();
        if white_space(c) {
            if cur.len() > 0 { (ws.push(cur), Seq::empty()) } else { (ws, Seq::empty()) }
        } else {
            (ws, cur.push(c))
        }
    }
}

/// The maximal runs of non-white-space characters of `s`, in order.
pub open spec fn words_of(s: Seq<char>) -> Seq<Seq<char>> {
    let (ws, cur) = split_state(s);
    if cur.len() > 0 { ws.push(cur) } else { ws }
}

/// Splits `s` at white space, dropping empty words.
fn split_words(s: &str) -> (r: Vec<Vec<char>>)
    ensures
        r@.map_values(|w: Vec<char>| w@) == words_of(s@),
{
    let cs = chars_of(s);
    let mut ws: Vec<Vec<char>> = Vec::new();
    let mut cur: Vec<char> = Vec::new();
    let mut i: usize = 0;
    while i < cs.len()
        invariant
            i <= cs@.len(),
            cs@ == s@,
            (ws@.map_values(|w: Vec<char>| w@), cur@) == split_state(cs@.subrange(0, i as int)),
        decreases cs.len() - i,
    {
        let c = cs[i];
        proof {
            assert(cs@.subrange(0, i + 1).drop_last() =~= cs@.subrange(0, i as int));
        }
        if is_white(c) {
            if cur.len() > 0 {
                let ghost old_ws = ws@;
                let w = cur;
                cur = Vec::new();
                ws.push(w);
                proof {
                    assert(ws@.map_values(|w: Vec<char>| w@) =~= old_ws.map_values(|w: Vec<char>| w@).push(w@));
                }
            } else {
                cur = Vec::new();
            }
        } else {
            cur.push(c);
        }
        i = i + 1;
    }
    proof {
        assert(cs@.subrange(0, cs@.len() as int) =~= cs@);
    }
    if cur.len() > 0 {
        let ghost old_ws = ws@;
        ws.push(cur);
        proof {
            assert(ws@.map_values(|w: Vec<char>| w@) =~= old_ws.map_values(|w: Vec<char>| w@).push(ws@.last()@));
        }
    }
    ws
}

pub open spec fn is_digit(c: char) -> bool {
    '0' <= c <= '9'
}

/// The number written by a string of decimal digits.
pub open spec fn digits_value(s: Seq<char>) -> nat
    decreases s.len(),
{
    if s.len() == 0 {
        0
    } else {
        digits_value(s.drop_last()) * 10 + (s.last() as nat - '0' as nat) as nat
    }
}

/// `s` without a leading `+`.
pub open spec fn unsigned_part(s: Seq<char>) -> Seq<char> {
    if s.len() > 0 && s[0] == '+' { s.drop_first() } else { s }
}

pub open spec fn all_digits(d: Seq<char>) -> bool {
    forall|i: int| 0 <= i < d.len() ==> is_digit(#[trigger] d[i])
}

/// What `u16::from_str` accepts: an optional `+`, then one or more decimal
/// digits whose value fits in a `u16`.
pub open spec fn parse_u16_of(s: Seq<char>) -> Option<u16> {
    let d = unsigned_part(s);
    if d.len() > 0 && all_digits(d) && digits_value(d) <= 65535 {
        Some(digits_value(d) as u16)
    } else {
        None
    }
}

proof fn lemma_digits_grow(s: Seq<char>, c: char)
    requires
        is_digit(c),
    ensures
        digits_value(s.push(c)) >= digits_value(s),
        digits_value(s.push(c)) == digits_value(s) * 10 + (c as nat - '0' as nat),
{
    assert(s.push(c).drop_last() =~= s);
}

/// Reads a decimal number from 0 to 65535, as `u16::from_str` does.
pub fn parse_u16(s: &Vec<char>) -> (r: Option<u16>)
    ensures
        r == parse_u16_of(s@),
{
    let start: usize = if s.len() > 0 && s[0] == '+' { 1 } else { 0 };
    let ghost d = unsigned_part(s@);
    if start >= s.len() {
        return None;
    }
    let mut val: u32 = 0;
    let mut over = false;
    let mut i: usize = start;
    while i < s.len()
        invariant
            start <= i <= s@.len(),
            d == s@.subrange(start as int, s@.len() as int),
            d == unsigned_part(s@),
            forall|k: int| start <= k < i ==> is_digit(#[trigger] s@[k]),
            !over ==> val == digits_value(s@.subrange(start as int, i as int)) && val <= 65535,
            over ==> digits_value(s@.subrange(start as int, i as int)) > 65535,
        decreases s.len() - i,
    {
        let c = s[i];
        if !('0' <= c && c <= '9') {
            proof {
                assert(d[i - start] == c);
                assert(!is_digit(d[i - start]));
                assert(unsigned_part(s@) == d);
                assert(!all_digits(d));
            }
            return None;
        }
        proof {
            let p = s@.subrange(start as int, i as int);
            assert(s@.subrange(start as int, i + 1) =~= p.push(c));
            lemma_digits_grow(p, c);
        }
        if !over {
            let digit = (c as u32) - ('0' as u32);
            let next = val * 10 + digit;
            if next > 65535 {
                over = true;
            } else {
                val = next;
            }
        }
        i = i + 1;
    }
    proof {
        assert(unsigned_part(s@) == d);
        assert(s@.subrange(start as int, s@.len() as int) == d);
        assert forall|k: int| 0 <= k < d.len() implies is_digit(#[trigger] d[k]) by {
            assert(d[k] == s@[start + k]);
        }
        assert(all_digits(d));
    }
    if over {
        None
    } else {
        Some(val as u16)
    }
}

/// The style letters `b`, `u`, `r` of `t`, or the first other character.
pub open spec fn style_of(t: Seq<char>) -> Result<Style, char>
    decreases t.len(),
{
    if t.len() == 0 {
        Ok(plain_style())
    } else {
        match style_of(t.drop_last()) {
            Err(c) => Err(c),
            Ok(st) => {
                let c = t.last();
                if c == 'b' {
                    Ok(Style { bold: true, ..st })
                } else if c == 'u' {
                    Ok(Style { underline: true, ..st })
                } else if c == 'r' {
                    Ok(Style { reverse: true, ..st })
                } else {
                    Err(c)
                }
            },
        }
    }
}

fn parse_style(t: &Vec<char>) -> (r: Result<Style, char>)
    ensures
        r == style_of(t@),
{
    let mut st = Style::normal();
    let mut i: usize = 0;
    while i < t.len()
        invariant
            i <= t@.len(),
            style_of(t@.subrange(0, i as int)) == Ok::<Style, char>(st),
        decreases t.len() - i,
    {
        let c = t[i];
        proof {
            assert(t@.subrange(0, i + 1).drop_last() =~= t@.subrange(0, i as int));
        }
        if c == 'b' {
            st.bold = true;
        } else if c == 'u' {
            st.underline = true;
        } else if c == 'r' {
            st.reverse = true;
        } else {
            proof {
                lemma_style_err_stays(t@, i as int + 1);
            }
            return Err(c);
        }
        i = i + 1;
    }
    proof {
        assert(t@.subrange(0, t@.len() as int) =~= t@);
    }
    Ok(st)
}

proof fn lemma_style_err_stays(t: Seq<char>, n: int)
    requires
        0 <= n <= t.len(),
        style_of(t.subrange(0, n)) is Err,
    ensures
        style_of(t) == style_of(t.subrange(0, n)),
    decreases t.len() - n,
{
    if n < t.len() {
        assert(t.subrange(0, n + 1).drop_last() =~= t.subrange(0, n));
        lemma_style_err_stays(t, n + 1);
    } else {
        assert(t.subrange(0, n) =~= t);
    }
}

/// The meaning of a colour description `"FG BG STYLE"`: missing words take
/// colour 0 and no style, words after the third are ignored.
pub open spec fn parse_color_of(s: Seq<char>) -> Result<Color, ColorErrorView> {
    let w = words_of(s);
    let fg = if w.len() > 0 { parse_u16_of(w[0]) } else { Some(0u16) };
    let bg = if w.len() > 1 { parse_u16_of(w[1]) } else { Some(0u16) };
    let sty = if w.len() > 2 { style_of(w[2]) } else { Ok(plain_style()) };
    if fg is None {
        Err(ColorErrorView::InvalidFg(w[0]))
    } else if bg is None {
        Err(ColorErrorView::InvalidBg(w[1]))
    } else if sty is Err {
        Err(ColorErrorView::InvalidStyle(sty->Err_0))
    } else {
        Ok(Color { fg: fg->Some_0, bg: bg->Some_0, sty: sty->Ok_0 })
    }
}

/// The model of a `ColorError`.
pub enum ColorErrorView {
    InvalidFg(Seq<char>),
    InvalidBg(Seq<char>),
    InvalidStyle(char),
}

impl View for ColorError {
    type V = ColorErrorView;

    open spec fn view(&self) -> ColorErrorView {
        match self {
            ColorError::InvalidFg(s) => ColorErrorView::InvalidFg(s@),
            ColorError::InvalidBg(s) => ColorErrorView::InvalidBg(s@),
            ColorError::InvalidStyle(c) => ColorErrorView::InvalidStyle(*c),
        }
    }
}

pub open spec fn color_result_view(r: Result<Color, ColorError>) -> Result<Color, ColorErrorView> {
    match r {
        Ok(c) => Ok(c),
        Err(e) => Err(e@),
    }
}

/// Parses a colour description `"FG BG STYLE"`.
pub fn parse_color(s: &str) -> (r: Result<Color, ColorError>)
    ensures
        color_result_view(r) == parse_color_of(s@),
{
    let words = split_words(s);
    proof {
        assert(words@.len() == words_of(s@).len());
        assert forall|k: int| 0 <= k < words@.len() implies words@[k]@ == words_of(s@)[k] by {
            assert(words@.map_values(|w: Vec<char>| w@)[k] == words@[k]@);
        }
    }
    let fg = if words.len() > 0 {
        match parse_u16(&words[0]) {
            Some(v) => v,
            None => return Err(ColorError::InvalidFg(string_from_chars(&words[0]))),
        }
    } else {
        0
    };
    let bg = if words.len() > 1 {
        match parse_u16(&words[1]) {
            Some(v) => v,
            None => return Err(ColorError::InvalidBg(string_from_chars(&words[1]))),
        }
    } else {
        0
    };
    let sty = if words.len() > 2 {
        match parse_style(&words[2]) {
            Ok(st) => st,
            Err(c) => return Err(ColorError::InvalidStyle(c)),
        }
    } else {
        Style::normal()
    };
    Ok(Color { fg, bg, sty })
}


/// Colours of each kind of log severity and of each part of the screen.
#[derive(Clone, Copy, Debug)]
pub struct Colors {
    pub command: Color,
    pub file_header: Color,
    pub time: Color,
    pub info: Color,
    pub warn: Color,
    pub error: Color,
    pub severe: Color,
    pub fatal: Color,
    pub other: Color,
    pub text: Color,
    pub truncate: Color,
    pub prompt: Color,
    pub status: Color,
}

impl Default for Colors {
    fn default() -> (r: Colors)
        ensures
            r.command == (Color { fg: 0, bg: 0, sty: Style { bold: true, ..plain_style() } }),
            r.file_header == (Color { fg: 0, bg: 0, sty: Style { bold: true, ..plain_style() } }),
            r.time == (Color { fg: 0, bg: 0, sty: plain_style() }),
            r.info == (Color { fg: 0, bg: 0, sty: plain_style() }),
            r.warn == (Color { fg: 0, bg: 0, sty: plain_style() }),
            r.error == (Color { fg: 0, bg: 0, sty: plain_style() }),
            r.severe == (Color { fg: 0, bg: 0, sty: plain_style() }),
            r.fatal == (Color { fg: 0, bg: 0, sty: plain_style() }),
            r.other == (Color { fg: 0, bg: 0, sty: plain_style() }),
            r.text == (Color { fg: 0, bg: 0, sty: plain_style() }),
            r.truncate == (Color { fg: 0, bg: 0, sty: Style { reverse: true, ..plain_style() } }),
            r.prompt == (Color { fg: 0, bg: 0, sty: Style { reverse: true, ..plain_style() } }),
            r.status == (Color { fg: 0, bg: 0, sty: Style { bold: true, ..plain_style() } }),
    {
        Colors {
            command: Color::new(0, 0, Style::bold()),
            file_header: Color::new(0, 0, Style::bold()),
            time: Color::new(0, 0, Style::normal()),
            info: Color::new(0, 0, Style::normal()),
            warn: Color::new(0, 0, Style::normal()),
            error: Color::new(0, 0, Style::normal()),
            severe: Color::new(0, 0, Style::normal()),
            fatal: Color::new(0, 0, Style::normal()),
            other: Color::new(0, 0, Style::normal()),
            text: Color::new(0, 0, Style::normal()),
            truncate: Color::new(0, 0, Style::reverse()),
            prompt: Color::new(0, 0, Style::reverse()),
            status: Color::new(0, 0, Style::bold()),
        }
    }
}

impl Colors {
    /// The colour of a role; plain cells take the terminal's default.
    pub open spec fn color_of_spec(&self, role: Role) -> Color {
        match role {
            Role::Time => self.time,
            Role::Info => self.info,
            Role::Warn => self.warn,
            Role::Error => self.error,
            Role::Severe => self.severe,
            Role::Fatal => self.fatal,
            Role::Other => self.other,
            Role::Text => self.text,
            Role::Plain => Color { fg: 0, bg: 0, sty: plain_style() },
            Role::Header => self.file_header,
            Role::Truncate => self.truncate,
            Role::Prompt => self.prompt,
            Role::Status => self.status,
        }
    }

    pub fn color_of(&self, role: Role) -> (r: Color)
        ensures
            r == self.color_of_spec(role),
    {
        match role {
            Role::Time => self.time,
            Role::Info => self.info,
            Role::Warn => self.warn,
            Role::Error => self.error,
            Role::Severe => self.severe,
            Role::Fatal => self.fatal,
            Role::Other => self.other,
            Role::Text => self.text,
            Role::Plain => Color::default(),
            Role::Header => self.file_header,
            Role::Truncate => self.truncate,
            Role::Prompt => self.prompt,
            Role::Status => self.status,
        }
    }
}

/// Settings read once at start: colours, truncation glyphs, status text and
/// the steps of the navigation keys.
#[derive(Clone, Debug)]
pub struct Config {
    pub colors: Colors,
    pub trun_left: String,
    pub trun_right: String,
    pub default_status: String,
    pub vertical_move: isize,
    pub horizontal_move: isize,
}

impl Default for Config {
    fn default() -> (r: Config)
        ensures
            r.trun_left@ == seq!['<'],
            r.trun_right@ == seq!['>'],
            r.default_status@ == "ctrl-Q = quit; arrows/PgUp/PgDn/End = scroll; type to enter command"@,
            r.vertical_move == 1,
            r.horizontal_move == 16,
    {
        let trun_left = "<".to_owned();
        let trun_right = ">".to_owned();
        proof {
            reveal_strlit("<");
            reveal_strlit(">");
            assert(trun_left@ =~= seq!['<']);
            assert(trun_right@ =~= seq!['>']);
        }
        Config {
            colors: Colors::default(),
            trun_left,
            trun_right,
            default_status: "ctrl-Q = quit; arrows/PgUp/PgDn/End = scroll; type to enter command".to_owned(),
            vertical_move: 1,
            horizontal_move: 16,
        }
    }
}

} // verus!
