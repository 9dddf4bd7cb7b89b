use better_console::{parse_color, parse_u16, Color, ColorError, Colors, Config, Role, Style};

#[test]
fn color_parses_words() {
    let c = parse_color("12 34 bu").unwrap();
    assert_eq!(c, Color::new(12, 34, Style { bold: true, underline: true, reverse: false }));
    assert_eq!(parse_color("").unwrap(), Color::default());
    assert_eq!(parse_color("  7 ").unwrap(), Color::new(7, 0, Style::normal()));
    assert_eq!(parse_color("1 2 r extra").unwrap(), Color::new(1, 2, Style::reverse()));
}

#[test]
fn color_errors() {
    assert_eq!(parse_color("x 2"), Err(ColorError::InvalidFg("x".to_string())));
    assert_eq!(parse_color("1 70000"), Err(ColorError::InvalidBg("70000".to_string())));
    assert_eq!(parse_color("1 2 bq"), Err(ColorError::InvalidStyle('q')));
}

#[test]
fn u16_like_std() {
    for s in ["0", "+5", "65535", "65536", "", "+", "-1", "1a", "007"] {
        let cs: Vec<char> = s.chars().collect();
        assert_eq!(parse_u16(&cs), s.parse::<u16>().ok(), "{}", s);
    }
}

#[test]
fn config_defaults() {
    let c = Config::default();
    assert_eq!(c.trun_left, "<");
    assert_eq!(c.trun_right, ">");
    assert_eq!(c.vertical_move, 1);
    assert_eq!(c.horizontal_move, 16);
    let colors = Colors::default();
    assert_eq!(colors.color_of(Role::Truncate), Color::new(0, 0, Style::reverse()));
    assert_eq!(colors.color_of(Role::Status), Color::new(0, 0, Style::bold()));
    assert_eq!(colors.color_of(Role::Plain), Color::default());
}
