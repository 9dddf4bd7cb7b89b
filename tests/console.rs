use better_console::{Action, Console, Event, Line, Redraw};

fn log(s: &str) -> Line {
    Line::Log(s.to_string())
}

/// A console of height 10 (8 log rows) holding L1..L8, oldest first.
fn filled() -> Console {
    let mut c = Console::new(80, 10, 1, 16);
    for i in (1..=8).rev() {
        assert!(c.collecting());
        c.push_history(log(&format!("L{}", i)));
    }
    c
}

fn fetch_all(c: &mut Console, a: &Action, source: &mut Vec<Line>) {
    for _ in 0..a.fetch {
        match source.pop() {
            Some(l) => c.push_history(l),
            None => {
                c.history_exhausted();
                break;
            }
        }
    }
}

#[test]
fn scroll_up_with_history_exhausted() {
    let mut c = filled();
    assert!(!c.collecting());
    assert_eq!(c.max_scroll(), 0);
    let a = c.process_event(Event::Up);
    assert_eq!(a.fetch, 1);
    assert_eq!(a.redraw, Redraw::Logs);
    let mut source: Vec<Line> = Vec::new();
    fetch_all(&mut c, &a, &mut source);
    assert!(c.history_done);
    assert_eq!(c.scroll, 0);
    assert_eq!(c.buffer.len(), 8);
    // Once exhausted, nothing more is asked for.
    let a = c.process_event(Event::PageUp);
    assert_eq!(a.fetch, 0);
    assert_eq!(c.scroll, 0);
    assert_eq!(c.buffer.len(), 8);
}

#[test]
fn live_entry_pins_to_tail() {
    let mut c = filled();
    assert_eq!(c.scroll, 0);
    assert_eq!(c.max_scroll(), 0);
    c.push_live(log("L9"));
    assert_eq!(c.buffer.len(), 9);
    assert_eq!(c.max_scroll(), 1);
    assert_eq!(c.scroll, 1);
    assert_eq!(c.buffer[8], log("L9"));
}

#[test]
fn live_entry_keeps_reading_position() {
    let mut c = filled();
    c.push_live(log("L9"));
    c.push_live(log("L10"));
    assert_eq!(c.scroll, 2);
    c.process_event(Event::Up);
    assert_eq!(c.scroll, 1);
    c.push_live(log("L11"));
    assert_eq!(c.scroll, 1);
    assert_eq!(c.max_scroll(), 3);
}

#[test]
fn short_buffer_stays_at_zero() {
    let mut c = Console::new(80, 10, 1, 16);
    c.push_live(log("a"));
    c.push_live(log("b"));
    assert_eq!(c.scroll, 0);
    assert_eq!(c.max_scroll(), 0);
}

#[test]
fn history_is_prepended_in_order() {
    let mut c = Console::new(80, 6, 1, 16);
    c.push_live(log("live1"));
    c.push_history(log("h1"));
    c.push_history(log("h2"));
    let v: Vec<Line> = c.buffer.iter().cloned().collect();
    assert_eq!(v, vec![log("h2"), log("h1"), log("live1")]);
}

#[test]
fn scroll_back_fetches_deficit() {
    let mut c = filled();
    c.push_live(log("L9"));
    c.push_live(log("L10"));
    assert_eq!(c.scroll, 2);
    let a = c.process_event(Event::PageUp);
    // Page step is half of height 10.
    assert_eq!(a.fetch, 3);
    assert_eq!(c.scroll, 0);
    let mut source = vec![log("L-2"), log("L-1"), log("L0")];
    fetch_all(&mut c, &a, &mut source);
    assert_eq!(c.buffer.len(), 13);
    assert_eq!(c.buffer[0], log("L-2"));
    assert_eq!(c.buffer[2], log("L0"));
    assert_eq!(c.scroll, 0);
    assert!(!c.history_done);
}

#[test]
fn scroll_down_clamps_and_end_jumps() {
    let mut c = filled();
    for i in 9..=12 {
        c.push_live(log(&format!("L{}", i)));
    }
    assert_eq!(c.scroll, 4);
    let a = c.process_event(Event::PageUp);
    assert_eq!(a.fetch, 1);
    assert_eq!(c.scroll, 0);
    let a = c.process_event(Event::Down);
    assert_eq!(c.scroll, 1);
    assert_eq!(a.redraw, Redraw::Logs);
    c.process_event(Event::PageDown);
    assert_eq!(c.scroll, 4);
    c.scroll = 2;
    let a = c.process_event(Event::End);
    assert_eq!(a.redraw, Redraw::Logs);
    assert_eq!(c.scroll, 4);
    let a = c.process_event(Event::End);
    assert_eq!(a.redraw, Redraw::Nothing);
}

#[test]
fn zero_scroll_does_nothing() {
    let mut c = Console::new(80, 10, 0, 16);
    c.push_live(log("a"));
    assert_eq!(c.scroll(0), 0);
    let a = c.process_event(Event::Up);
    assert_eq!(a.fetch, 0);
    assert_eq!(a.redraw, Redraw::Nothing);
    assert_eq!(c.buffer.len(), 1);
    assert_eq!(c.scroll, 0);
}

#[test]
fn horizontal_scroll_clamps_at_zero() {
    let mut c = Console::new(80, 10, 1, 16);
    let a = c.process_event(Event::Left);
    assert_eq!(a.redraw, Redraw::Nothing);
    assert_eq!(c.hscroll, 0);
    c.process_event(Event::Right);
    assert_eq!(c.hscroll, 16);
    assert!(c.scroll_h(-5));
    assert_eq!(c.hscroll, 11);
    let a = c.process_event(Event::Left);
    assert_eq!(a.redraw, Redraw::Logs);
    assert_eq!(c.hscroll, 0);
}

#[test]
fn typed_command_is_submitted() {
    let mut c = Console::new(80, 10, 1, 16);
    for ch in "say hello".chars() {
        let a = c.process_event(Event::Char(ch));
        assert_eq!(a.redraw, Redraw::Input);
    }
    let a = c.process_event(Event::Enter);
    assert_eq!(a.command.as_deref(), Some("say hello"));
    assert_eq!(a.redraw, Redraw::Input);
    assert!(c.input.is_empty());
    let (row, cursor) = better_console::input_row(&c.input, 10);
    assert_eq!(row.iter().collect::<String>(), " >        ");
    assert_eq!(cursor, 3);
}

#[test]
fn backspace_edits_input() {
    let mut c = Console::new(80, 10, 1, 16);
    c.process_event(Event::Backspace);
    assert!(c.input.is_empty());
    c.process_event(Event::Char('a'));
    c.process_event(Event::Char('b'));
    c.process_event(Event::Backspace);
    assert_eq!(c.input, vec!['a']);
    let a = c.process_event(Event::Enter);
    assert_eq!(a.command.as_deref(), Some("a"));
}

#[test]
fn quit_is_not_acknowledged() {
    let mut c = Console::new(80, 10, 1, 16);
    let a = c.process_event(Event::Quit);
    assert!(a.quit);
    assert!(c.exit);
    let a = c.process_event(Event::Other);
    assert!(!a.quit);
    assert_eq!(a.redraw, Redraw::Nothing);
}

#[test]
fn resize_keeps_scroll_in_bounds() {
    let mut c = filled();
    for i in 9..=12 {
        c.push_live(log(&format!("L{}", i)));
    }
    assert_eq!(c.scroll, 4);
    let a = c.process_event(Event::Resize(40, 12));
    assert_eq!(a.redraw, Redraw::All);
    assert_eq!(c.width, 40);
    assert_eq!(c.max_scroll(), 2);
    assert_eq!(c.scroll, 2);
    assert_eq!(c.visible_range(), (2, 12));
}

#[test]
fn collecting_stops_on_exhaustion() {
    let mut c = Console::new(80, 10, 1, 16);
    c.push_history(log("only"));
    assert!(c.collecting());
    c.history_exhausted();
    assert!(!c.collecting());
    assert_eq!(c.visible_range(), (0, 1));
}
