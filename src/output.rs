use vstd::prelude::*;
use crate::text::string_from_chars;

verus! {

/// One row of the scroll buffer.
#[derive(Clone, PartialEq, Eq, Debug)]
pub enum Line {
    /// A decoded log line, tabs already expanded.
    Log(String),
    /// A marker placed before the content of another file, naming that file.
    Header(String),
}

/// A terminal event, as the coordinator sees it.
#[derive(Clone, Copy, PartialEq, Eq, Debug)]
pub enum Event {
    Resize(usize, usize),
    Quit,
    Up,
    Down,
    Left,
    Right,
    PageUp,
    PageDown,
    End,
    Char(char),
    Backspace,
    Enter,
    Other,
}

/// Which part of the screen must be painted again.
#[derive(Clone, Copy, PartialEq, Eq, Debug)]
pub enum Redraw {
    Nothing,
    Logs,
    Input,
    All,
}

/// What the caller has to do after an event was applied.
#[derive(Clone, Debug)]
pub struct Action {
    pub redraw: Redraw,
    /// How many older entries to request from the history loader, each to be
    /// handed back through `push_history`.
    pub fetch: usize,
    /// A finished command line for the transcript.
    pub command: Option<String>,
    /// The operator asked to leave; the event source is not acknowledged.
    pub quit: bool,
}

/// The coordinator's state: scroll buffer, scroll position and input line.
pub struct Console {
    pub buffer: std::collections::VecDeque<Line>,
    pub input: Vec<char>,
    pub scroll: usize,
    pub hscroll: usize,
    pub width: usize,
    pub height: usize,
    pub exit: bool,
    pub history_done: bool,
    pub vertical_move: isize,
    pub horizontal_move: isize,
    /// Every entry received from the history loader, in arrival order.
    pub hist: Ghost<Seq<Line>>,
    /// Every entry received from the live feed, in arrival order.
    pub live: Ghost<Seq<Line>>,
}

/// The mathematical model of a `Console`.
pub struct ConsoleView {
    pub buffer: Seq<Line>,
    pub input: Seq<char>,
    pub scroll: nat,
    pub hscroll: nat,
    pub width: nat,
    pub height: nat,
    pub exit: bool,
    pub history_done: bool,
    pub vertical_move: int,
    pub horizontal_move: int,
    pub hist: Seq<Line>,
    pub live: Seq<Line>,
}

impl View for Console {
    type V = ConsoleView;

    open spec fn view(&self) -> ConsoleView {
        ConsoleView {
            buffer: self.buffer@,
            input: self.input@,
            scroll: self.scroll as nat,
            hscroll: self.hscroll as nat,
            width: self.width as nat,
            height: self.height as nat,
            exit: self.exit,
            history_done: self.history_done,
            vertical_move: self.vertical_move as int,
            horizontal_move: self.horizontal_move as int,
            hist: self.hist@,
            live: self.live@,
        }
    }
}

/// Rows of the terminal given to log entries: all but the input and status rows.
pub open spec fn log_rows_of(height: nat) -> nat {
    if height >= 2 { (height - 2) as nat } else { 0 }
}

/// The largest first-visible index: `max(0, len - rows)`.
pub open spec fn max_scroll_of(len: nat, rows: nat) -> nat {
    if len <= rows { 0 } else { (len - rows) as nat }
}

pub open spec fn max_scroll_view(v: ConsoleView) -> nat {
    max_scroll_of(v.buffer.len(), log_rows_of(v.height))
}

/// The history entries come newest first and each is put in front, so the
/// buffer is the history stream read backward followed by the live stream.
pub open spec fn wf_view(v: ConsoleView) -> bool {
    &&& v.scroll <= max_scroll_view(v)
    &&& v.buffer == v.hist.reverse() + v.live
}

/// The state after `Scroll(delta)`.
pub open spec fn scrolled(v: ConsoleView, delta: int) -> ConsoleView {
    if delta == 0 {
        v
    } else if delta > 0 {
        let m = max_scroll_view(v);
        ConsoleView { scroll: if v.scroll + delta > m { m } else { (v.scroll + delta) as nat }, ..v }
    } else if -delta <= v.scroll {
        ConsoleView { scroll: (v.scroll + delta) as nat, ..v }
    } else {
        ConsoleView { scroll: 0, ..v }
    }
}

/// How many older entries `Scroll(delta)` asks of the history loader.
pub open spec fn fetch_for(v: ConsoleView, delta: int) -> nat {
    if delta < 0 && -delta > v.scroll && !v.history_done {
        (-delta - v.scroll) as nat
    } else {
        0
    }
}

/// The state after a horizontal move by `delta`, clamped at zero.
pub open spec fn hscrolled(v: ConsoleView, delta: int) -> ConsoleView {
    if delta > 0 {
        let h = v.hscroll + delta;
        ConsoleView { hscroll: if h > usize::MAX { usize::MAX as nat } else { h as nat }, ..v }
    } else if delta < 0 && v.hscroll != 0 {
        ConsoleView { hscroll: if v.hscroll < -delta { 0 } else { (v.hscroll + delta) as nat }, ..v }
    } else {
        v
    }
}

/// Whether a horizontal move by `delta` repaints the log area.
pub open spec fn hscroll_redraws(v: ConsoleView, delta: int) -> bool {
    delta > 0 || (delta < 0 && v.hscroll != 0)
}

/// The state after a live entry arrives: appended, and followed when the
/// view was at the tail.
pub open spec fn with_live(v: ConsoleView, line: Line) -> ConsoleView {
    let w = ConsoleView { buffer: v.buffer.push(line), live: v.live.push(line), ..v };
    if v.scroll == max_scroll_view(v) {
        ConsoleView { scroll: max_scroll_view(w), ..w }
    } else {
        w
    }
}

/// The state after an older entry arrives from the history loader.
pub open spec fn with_history(v: ConsoleView, line: Line) -> ConsoleView {
    ConsoleView { buffer: seq![line] + v.buffer, hist: v.hist.push(line), ..v }
}

/// The state after a resize: new size, scroll clamped into the new bound.
pub open spec fn resized(v: ConsoleView, w: nat, h: nat) -> ConsoleView {
    let m = max_scroll_of(v.buffer.len(), log_rows_of(h));
    ConsoleView { width: w, height: h, scroll: if v.scroll > m { m } else { v.scroll }, ..v }
}

/// The largest step a page move takes: half the terminal height.
pub open spec fn page_of(height: nat) -> int {
    let half = height / 2;
    if half > isize::MAX { isize::MAX as int } else { half as int }
}

/// Negation that saturates at the bounds of `isize`.
pub open spec fn neg_of(d: int) -> int {
    if d == isize::MIN { isize::MAX as int } else { -d }
}

/// The state after one terminal event.
pub open spec fn next_view(v: ConsoleView, ev: Event) -> ConsoleView {
    match ev {
        Event::Resize(w, h) => resized(v, w as nat, h as nat),
        Event::Quit => ConsoleView { exit: true, ..v },
        Event::Up => scrolled(v, neg_of(v.vertical_move)),
        Event::Down => scrolled(v, v.vertical_move),
        Event::Left => hscrolled(v, neg_of(v.horizontal_move)),
        Event::Right => hscrolled(v, v.horizontal_move),
        Event::PageUp => scrolled(v, -page_of(v.height)),
        Event::PageDown => scrolled(v, page_of(v.height)),
        Event::End => ConsoleView { scroll: max_scroll_view(v), ..v },
        Event::Char(c) => ConsoleView { input: v.input.push(c), ..v },
        Event::Backspace => ConsoleView {
            input: if v.input.len() > 0 { v.input.drop_last() } else { v.input },
            ..v
        },
        Event::Enter => ConsoleView { input: Seq::empty(), ..v },
        Event::Other => v,
    }
}

/// The history request that one terminal event makes.
pub open spec fn fetch_of(v: ConsoleView, ev: Event) -> nat {
    match ev {
        Event::Up => fetch_for(v, neg_of(v.vertical_move)),
        Event::Down => fetch_for(v, v.vertical_move),
        Event::PageUp => fetch_for(v, -page_of(v.height)),
        Event::PageDown => fetch_for(v, page_of(v.height)),
        _ => 0,
    }
}

/// What one terminal event repaints.
pub open spec fn redraw_of(v: ConsoleView, ev: Event) -> Redraw {
    match ev {
        Event::Resize(_, _) => Redraw::All,
        Event::Quit => Redraw::Nothing,
        Event::Up => if v.vertical_move == 0 { Redraw::Nothing } else { Redraw::Logs },
        Event::Down => if v.vertical_move == 0 { Redraw::Nothing } else { Redraw::Logs },
        Event::Left => if hscroll_redraws(v, neg_of(v.horizontal_move)) { Redraw::Logs } else { Redraw::Nothing },
        Event::Right => if hscroll_redraws(v, v.horizontal_move) { Redraw::Logs } else { Redraw::Nothing },
        Event::PageUp => if page_of(v.height) == 0 { Redraw::Nothing } else { Redraw::Logs },
        Event::PageDown => if page_of(v.height) == 0 { Redraw::Nothing } else { Redraw::Logs },
        Event::End => if v.scroll == max_scroll_view(v) { Redraw::Nothing } else { Redraw::Logs },
        Event::Char(_) | Event::Backspace | Event::Enter => Redraw::Input,
        Event::Other => Redraw::Nothing,
    }
}

/// The command that one terminal event submits.
pub open spec fn command_of(v: ConsoleView, ev: Event) -> Option<Seq<char>> {
    match ev {
        Event::Enter => Some(v.input),
        _ => None,
    }
}

fn neg(d: isize) -> (r: isize)
    ensures
        r as int == neg_of(d as int),
{
    if d == isize::MIN { isize::MAX } else { -d }
}

impl Console {
    pub open spec fn wf(&self) -> bool {
        wf_view(self@)
    }

    /// A console with an empty buffer and input line.
    pub fn new(width: usize, height: usize, vertical_move: isize, horizontal_move: isize) -> (r: Console)
        ensures
            r.wf(),
            r@.buffer.len() == 0,
            r@.input.len() == 0,
            r@.scroll == 0,
            r@.hscroll == 0,
            r@.width == width,
            r@.height == height,
            !r@.exit,
            !r@.history_done,
            r@.vertical_move == vertical_move,
            r@.horizontal_move == horizontal_move,
            r@.hist.len() == 0,
            r@.live.len() == 0,
    {
        let r = Console {
            buffer: std::collections::VecDeque::new(),
            input: Vec::new(),
            scroll: 0,
            hscroll: 0,
            width,
            height,
            exit: false,
            history_done: false,
            vertical_move,
            horizontal_move,
            hist: Ghost(Seq::empty()),
            live: Ghost(Seq::empty()),
        };
        proof {
            assert(r@.hist.reverse() + r@.live =~= r@.buffer);
        }
        r
    }

    /// Rows of the terminal given to log entries.
    pub fn log_rows(&self) -> (r: usize)
        ensures
            r == log_rows_of(self.height as nat),
    {
        if self.height >= 2 { self.height - 2 } else { 0 }
    }

    /// True while the first screen is still being filled: fewer entries than
    /// log rows and the history loader not yet exhausted.
    pub fn collecting(&self) -> (r: bool)
        ensures
            r == (self@.buffer.len() < log_rows_of(self@.height) && !self@.history_done),
    {
        self.buffer.len() < self.log_rows() && !self.history_done
    }

    /// Appends a live entry at the back; a view at the tail follows it.
    pub fn push_live(&mut self, line: Line)
        requires
            old(self).wf(),
        ensures
            final(self).wf(),
            final(self)@ == with_live(old(self)@, line),
    {
        let at_tail = self.scroll == self.max_scroll();
        let ghost l = line;
        self.buffer.push_back(line);
        self.live = Ghost(self.live@.push(l));
        if at_tail {
            self.scroll = self.max_scroll();
        }
        proof {
            assert(self@.hist.reverse() + self@.live =~= self@.buffer);
        }
    }

    /// Puts an older entry from the history loader in front of the buffer.
    pub fn push_history(&mut self, line: Line)
        requires
            old(self).wf(),
        ensures
            final(self).wf(),
            final(self)@ == with_history(old(self)@, line),
    {
        let ghost l = line;
        self.buffer.push_front(line);
        self.hist = Ghost(self.hist@.push(l));
        proof {
            assert(self@.hist.reverse() =~= seq![l] + old(self)@.hist.reverse());
            assert(self@.hist.reverse() + self@.live =~= self@.buffer);
        }
    }

    /// Records that the history loader has closed its output.
    pub fn history_exhausted(&mut self)
        requires
            old(self).wf(),
        ensures
            final(self).wf(),
            final(self)@ == (ConsoleView { history_done: true, ..old(self)@ }),
    {
        self.history_done = true;
    }

    /// Moves the view by `delta` rows, positive toward the newest entries.
    /// Returns how many older entries the caller must fetch and hand to
    /// `push_history`; the scroll position is already final.
    pub fn scroll(&mut self, delta: isize) -> (r: usize)
        requires
            old(self).wf(),
        ensures
            final(self).wf(),
            final(self)@ == scrolled(old(self)@, delta as int),
            r == fetch_for(old(self)@, delta as int),
    {
        if delta == 0 {
            return 0;
        }
        if delta > 0 {
            let max_scroll = self.max_scroll();
            if delta as usize > max_scroll - self.scroll {
                self.scroll = max_scroll;
            } else {
                self.scroll = self.scroll + delta as usize;
            }
            0
        } else {
            let need: usize = if delta == isize::MIN { (isize::MAX as usize) + 1 } else { (-delta) as usize };
            if need > self.scroll {
                let to_fetch = if self.history_done { 0 } else { need - self.scroll };
                self.scroll = 0;
                to_fetch
            } else {
                self.scroll = self.scroll - need;
                0
            }
        }
    }

    /// Moves the view sideways by `delta` columns, never below zero.
    /// Returns whether the log area must be repainted.
    pub fn scroll_h(&mut self, delta: isize) -> (r: bool)
        requires
            old(self).wf(),
        ensures
            final(self).wf(),
            final(self)@ == hscrolled(old(self)@, delta as int),
            r == hscroll_redraws(old(self)@, delta as int),
    {
        if delta == 0 {
            return false;
        }
        if delta > 0 {
            self.hscroll = self.hscroll.saturating_add(delta as usize);
            true
        } else {
            let need: usize = if delta == isize::MIN { (isize::MAX as usize) + 1 } else { (-delta) as usize };
            if self.hscroll == 0 {
                false
            } else {
                if self.hscroll < need {
                    self.hscroll = 0;
                } else {
                    self.hscroll = self.hscroll - need;
                }
                true
            }
        }
    }

    /// Jumps to the newest entries. Returns whether anything moved.
    pub fn scroll_to_end(&mut self) -> (r: bool)
        requires
            old(self).wf(),
        ensures
            final(self).wf(),
            final(self)@ == (ConsoleView { scroll: max_scroll_view(old(self)@), ..old(self)@ }),
            r == (old(self)@.scroll != max_scroll_view(old(self)@)),
    {
        let max_scroll = self.max_scroll();
        if self.scroll != max_scroll {
            self.scroll = max_scroll;
            true
        } else {
            false
        }
    }

    /// Takes the new terminal size, keeping the scroll position in bounds.
    pub fn resize(&mut self, width: usize, height: usize)
        requires
            old(self).wf(),
        ensures
            final(self).wf(),
            final(self)@ == resized(old(self)@, width as nat, height as nat),
    {
        self.width = width;
        self.height = height;
        let m = self.max_scroll();
        if self.scroll > m {
            self.scroll = m;
        }
    }

    /// Appends a character to the input line.
    pub fn type_char(&mut self, c: char)
        requires
            old(self).wf(),
        ensures
            final(self).wf(),
            final(self)@ == (ConsoleView { input: old(self)@.input.push(c), ..old(self)@ }),
    {
        self.input.push(c);
    }

    /// Removes the last character of the input line, if any.
    pub fn backspace(&mut self)
        requires
            old(self).wf(),
        ensures
            final(self).wf(),
            final(self)@ == (ConsoleView {
                input: if old(self)@.input.len() > 0 { old(self)@.input.drop_last() } else { old(self)@.input },
                ..old(self)@
            }),
    {
        self.input.pop();
    }

    /// Takes the input line as a finished command and clears it.
    pub fn submit(&mut self) -> (r: String)
        requires
            old(self).wf(),
        ensures
            final(self).wf(),
            r@ == old(self)@.input,
            final(self)@ == (ConsoleView { input: Seq::empty(), ..old(self)@ }),
    {
        let command = string_from_chars(&self.input);
        self.input = Vec::new();
        command
    }

    /// Applies one terminal event and says what the caller must do next.
    pub fn process_event(&mut self, ev: Event) -> (r: Action)
        requires
            old(self).wf(),
        ensures
            final(self).wf(),
            final(self)@ == next_view(old(self)@, ev),
            r.fetch == fetch_of(old(self)@, ev),
            r.redraw == redraw_of(old(self)@, ev),
            r.quit == (ev == Event::Quit),
            match r.command {
                Some(s) => command_of(old(self)@, ev) == Some(s@),
                None => command_of(old(self)@, ev) is None,
            },
    {
        let mut fetch: usize = 0;
        let mut redraw = Redraw::Nothing;
        let mut command: Option<String> = None;
        let mut quit = false;
        match ev {
            Event::Resize(w, h) => {
                self.resize(w, h);
                redraw = Redraw::All;
            },
            Event::Quit => {
                self.exit = true;
                quit = true;
            },
            Event::Up => {
                let d = neg(self.vertical_move);
                fetch = self.scroll(d);
                if d != 0 {
                    redraw = Redraw::Logs;
                }
            },
            Event::Down => {
                let d = self.vertical_move;
                fetch = self.scroll(d);
                if d != 0 {
                    redraw = Redraw::Logs;
                }
            },
            Event::Left => {
                if self.scroll_h(neg(self.horizontal_move)) {
                    redraw = Redraw::Logs;
                }
            },
            Event::Right => {
                if self.scroll_h(self.horizontal_move) {
                    redraw = Redraw::Logs;
                }
            },
            Event::PageUp => {
                let d = self.page();
                fetch = self.scroll(-d);
                if d != 0 {
                    redraw = Redraw::Logs;
                }
            },
            Event::PageDown => {
                let d = self.page();
                fetch = self.scroll(d);
                if d != 0 {
                    redraw = Redraw::Logs;
                }
            },
            Event::End => {
                if self.scroll_to_end() {
                    redraw = Redraw::Logs;
                }
            },
            Event::Char(c) => {
                self.type_char(c);
                redraw = Redraw::Input;
            },
            Event::Backspace => {
                self.backspace();
                redraw = Redraw::Input;
            },
            Event::Enter => {
                command = Some(self.submit());
                redraw = Redraw::Input;
            },
            Event::Other => {},
        }
        Action { redraw, fetch, command, quit }
    }

    /// Half the terminal height: the step of a page move.
    fn page(&self) -> (r: isize)
        ensures
            r as int == page_of(self.height as nat),
            r >= 0,
    {
        let half = self.height / 2;
        if half > isize::MAX as usize { isize::MAX } else { half as isize }
    }

    /// The buffer indices shown in the log area, first row first:
    /// `scroll .. min(len, scroll + rows)`.
    pub fn visible_range(&self) -> (r: (usize, usize))
        requires
            self.wf(),
        ensures
            r.0 == self@.scroll,
            r.1 == (if self@.scroll + log_rows_of(self@.height) < self@.buffer.len() {
                self@.scroll + log_rows_of(self@.height)
            } else {
                self@.buffer.len()
            }),
            r.0 <= r.1 <= self@.buffer.len(),
    {
        let n = self.buffer.len();
        let rows = self.log_rows();
        let end = if rows < n - self.scroll { self.scroll + rows } else { n };
        (self.scroll, end)
    }

    /// The largest value that `scroll` may take.
    pub fn max_scroll(&self) -> (r: usize)
        ensures
            r == max_scroll_view(self@),
    {
        let h = self.log_rows();
        let l = self.buffer.len();
        if l <= h { 0 } else { l - h }
    }
}

} // verus!
