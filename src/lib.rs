//! Verified core of an operator console that tails a server log, scrolls back
//! through rotated archives on demand, and forwards typed commands.

mod config;
mod history;
mod laws;
mod output;
mod render;
mod text;

pub use config::{parse_color, parse_u16, Color, ColorError, Colors, Config, Style};
pub use history::{file_entries, log_entry, read_order, ArchivePattern};
pub use laws::{
    lemma_chronological, lemma_command_round_trip, lemma_exhausted_scroll, lemma_noop_scroll,
    lemma_pin_to_tail, lemma_scroll_bound, typed,
};
pub use output::{Action, Console, ConsoleView, Event, Line, Redraw};
pub use render::{
    header_text, input_row, layout_row, severity_role, spans_from_parts, status_row, LogPattern, Role,
    Span,
};
pub use text::expand_tabs;
