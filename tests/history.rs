use better_console::{expand_tabs, file_entries, log_entry, read_order, ArchivePattern, Line};

#[test]
fn selects_archives_in_order() {
    let p = ArchivePattern::new();
    let names = vec![
        "2023-01-02-1.log.gz".to_string(),
        "readme.txt".to_string(),
        "2023-01-01-1.log.gz".to_string(),
    ];
    let sel = p.select_archives(names);
    assert_eq!(sel, vec!["2023-01-01-1.log.gz".to_string(), "2023-01-02-1.log.gz".to_string()]);
    let order = read_order(&"logs/latest.log".to_string(), &sel);
    assert_eq!(
        order,
        vec![
            "logs/latest.log".to_string(),
            "2023-01-02-1.log.gz".to_string(),
            "2023-01-01-1.log.gz".to_string(),
        ]
    );
}

#[test]
fn archive_name_pattern() {
    let p = ArchivePattern::new();
    assert!(p.matches("2024-12-31-12.log.gz"));
    assert!(!p.matches("2024-12-31.log.gz"));
    assert!(!p.matches("latest.log"));
    assert!(!p.matches("x2024-12-31-1.log.gz"));
    assert!(!p.matches("2024-12-31-1.log.gz.bak"));
}

#[test]
fn tabs_become_four_spaces() {
    assert_eq!(expand_tabs("a\tb"), "a    b");
    assert_eq!(expand_tabs("\t\t"), "        ");
    assert_eq!(expand_tabs(""), "");
    assert_eq!(log_entry("x\ty"), Line::Log("x    y".to_string()));
}

#[test]
fn file_entries_newest_first_then_header() {
    let lines = vec!["first".to_string(), "sec\tond".to_string(), "third".to_string()];
    let e = file_entries(&lines, "logs/2023-01-01-1.log.gz".to_string());
    assert_eq!(
        e,
        vec![
            Line::Log("third".to_string()),
            Line::Log("sec    ond".to_string()),
            Line::Log("first".to_string()),
            Line::Header("logs/2023-01-01-1.log.gz".to_string()),
        ]
    );
    let empty: Vec<String> = Vec::new();
    assert_eq!(file_entries(&empty, "f".to_string()), vec![Line::Header("f".to_string())]);
}
