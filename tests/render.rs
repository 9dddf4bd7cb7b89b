use better_console::{
    header_text, input_row, layout_row, severity_role, status_row, Line, LogPattern, Role, Span,
};

fn texts(spans: &[Span]) -> Vec<(String, Role)> {
    spans.iter().map(|s| (s.text.clone(), s.role)).collect()
}

fn row_text(cells: &[(char, Role)]) -> String {
    cells.iter().map(|c| c.0).collect()
}

#[test]
fn structured_line_is_tokenized() {
    let p = LogPattern::new();
    let spans = p.format_log("[12:34:56] [Server thread/WARN]: disk low");
    assert_eq!(
        texts(&spans),
        vec![
            ("12:34:56".to_string(), Role::Time),
            (" ".to_string(), Role::Plain),
            ("WARN".to_string(), Role::Warn),
            (": ".to_string(), Role::Plain),
            ("disk low".to_string(), Role::Text),
        ]
    );
}

#[test]
fn unknown_severity_and_plain_lines() {
    let p = LogPattern::new();
    let spans = p.format_log("[01:02:03] [main/DEBUG]: x");
    assert_eq!(spans[2].role, Role::Other);
    let spans = p.format_log("just text");
    assert_eq!(texts(&spans), vec![("just text".to_string(), Role::Text)]);
    assert_eq!(severity_role(&"SEVERE".to_string()), Role::Severe);
    assert_eq!(severity_role(&"FATAL".to_string()), Role::Fatal);
    assert_eq!(severity_role(&"ERROR".to_string()), Role::Error);
    assert_eq!(severity_role(&"INFO".to_string()), Role::Info);
}

#[test]
fn row_is_padded_and_marked() {
    let spans = vec![Span { text: "hello world".to_string(), role: Role::Text }];
    let tl = vec!['<'];
    let tr = vec!['>'];
    let r = layout_row(&spans, 0, 15, &tl, &tr);
    assert_eq!(row_text(&r), "hello world    ");
    assert_eq!(r[14], (' ', Role::Plain));
    let r = layout_row(&spans, 0, 5, &tl, &tr);
    assert_eq!(row_text(&r), "hell>");
    assert_eq!(r[4].1, Role::Truncate);
    let r = layout_row(&spans, 3, 5, &tl, &tr);
    assert_eq!(row_text(&r), "<o w>");
    let r = layout_row(&spans, 6, 10, &tl, &tr);
    assert_eq!(row_text(&r), "<orld     ");
}

#[test]
fn header_ignores_hscroll() {
    let p = LogPattern::new();
    let tl = vec!['<'];
    let tr = vec!['>'];
    let r = p.render_entry(&Line::Header("logs/latest.log".to_string()), 4, 12, &tl, &tr);
    assert_eq!(row_text(&r), " --> logs/l ");
    assert_eq!(r[0].1, Role::Header);
    assert_eq!(header_text("abc", 20), " --> abc");
}

#[test]
fn input_and_status_rows() {
    let (row, cursor) = input_row(&"abc".chars().collect(), 10);
    assert_eq!(row.iter().collect::<String>(), " > abc    ");
    assert_eq!(cursor, 6);
    let s = status_row(&"help text".chars().collect(), 8);
    assert_eq!(s.iter().collect::<String>(), " help t ");
}
