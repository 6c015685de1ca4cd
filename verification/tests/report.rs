use symgrep::{match_line, report_lines, SymbolKind, SymbolMatch};

fn found(name: &str, kind: SymbolKind) -> SymbolMatch {
    SymbolMatch { name: name.to_string(), kind }
}

#[test]
fn tags_are_the_two_literals() {
    assert_eq!(SymbolKind::Import.tag(), "IMPORT");
    assert_eq!(SymbolKind::Export.tag(), "EXPORT");
}

#[test]
fn a_match_is_one_indented_line() {
    assert_eq!(
        match_line(&found("calculate_sum", SymbolKind::Import)),
        "  calculate_sum [IMPORT]"
    );
    assert_eq!(
        match_line(&found("calculate_sum", SymbolKind::Export)),
        "  calculate_sum [EXPORT]"
    );
}

#[test]
fn a_file_without_matches_is_silent() {
    let lines = report_lines("tests/fixtures/main", &[]);
    assert!(lines.is_empty());
}

#[test]
fn a_file_with_matches_is_named_first() {
    let matches = vec![
        found("calculate_sum", SymbolKind::Import),
        found("calculate_product", SymbolKind::Export),
    ];
    let lines = report_lines("tests/fixtures/main", &matches);
    assert_eq!(
        lines,
        vec![
            "tests/fixtures/main".to_string(),
            "  calculate_sum [IMPORT]".to_string(),
            "  calculate_product [EXPORT]".to_string(),
        ]
    );
}
