use std::cmp::Ordering;

use cargo_lens::components::diagnostic::{dia_sort, sort_by_severity, DiagParagraph};
use cargo_lens::message::{Diagnostic, DiagnosticLevel, DiagnosticSpan};
use cargo_lens::style::{push_decimal, Color};

fn diag(level: DiagnosticLevel, message: &str) -> Diagnostic {
    Diagnostic { message: message.to_string(), level, spans: vec![] }
}

fn span(file: &str, line: usize, column: usize) -> DiagnosticSpan {
    DiagnosticSpan { file_name: file.to_string(), line_start: line, column_start: column }
}

const ALL_LEVELS: [DiagnosticLevel; 6] = [
    DiagnosticLevel::Ice,
    DiagnosticLevel::Error,
    DiagnosticLevel::Warning,
    DiagnosticLevel::FailureNote,
    DiagnosticLevel::Note,
    DiagnosticLevel::Help,
];

#[test]
fn decimal_digits() {
    for (n, text) in [(0usize, "0"), (7, "7"), (10, "10"), (1234, "1234"), (90210, "90210")] {
        let mut s = String::from("x");
        push_decimal(&mut s, n);
        assert_eq!(s, format!("x{}", text));
    }
    let mut s = String::new();
    push_decimal(&mut s, usize::MAX);
    assert_eq!(s, usize::MAX.to_string());
}

#[test]
fn dia_sort_puts_errors_then_warnings_first() {
    let e = diag(DiagnosticLevel::Error, "e");
    let w = diag(DiagnosticLevel::Warning, "w");
    let n = diag(DiagnosticLevel::Note, "n");
    let h = diag(DiagnosticLevel::Help, "h");
    assert_eq!(dia_sort(&e, &w), Ordering::Less);
    assert_eq!(dia_sort(&w, &e), Ordering::Greater);
    assert_eq!(dia_sort(&e, &n), Ordering::Less);
    assert_eq!(dia_sort(&w, &n), Ordering::Less);
    assert_eq!(dia_sort(&n, &e), Ordering::Greater);
    assert_eq!(dia_sort(&n, &w), Ordering::Greater);
    assert_eq!(dia_sort(&n, &h), Ordering::Greater);
    assert_eq!(dia_sort(&h, &n), Ordering::Greater);
    for level in ALL_LEVELS {
        assert_eq!(dia_sort(&diag(level, "a"), &diag(level, "b")), Ordering::Equal);
    }
}

#[test]
fn sorting_is_stable_by_severity() {
    let input = vec![
        diag(DiagnosticLevel::Note, "n1"),
        diag(DiagnosticLevel::Warning, "w1"),
        diag(DiagnosticLevel::Error, "e1"),
        diag(DiagnosticLevel::Help, "h1"),
        diag(DiagnosticLevel::Warning, "w2"),
        diag(DiagnosticLevel::Ice, "i1"),
        diag(DiagnosticLevel::Error, "e2"),
    ];
    let sorted = sort_by_severity(input);
    let messages: Vec<&str> = sorted.iter().map(|d| d.message.as_str()).collect();
    assert_eq!(messages, vec!["e1", "e2", "w1", "w2", "n1", "h1", "i1"]);
}

#[test]
fn sorting_nothing_gives_nothing() {
    assert!(sort_by_severity(vec![]).is_empty());
}

#[test]
fn panel_waits_for_cargo() {
    let p = DiagParagraph::from(None);
    assert_eq!(p.0.len(), 1);
    assert_eq!(p.0[0].text, "waiting...");
    assert_eq!(p.0[0].color, None);
    assert!(!p.0[0].bold);
}

#[test]
fn panel_of_no_diagnostics_is_empty() {
    assert!(DiagParagraph::from(Some(vec![])).0.is_empty());
}

#[test]
fn panel_lists_headings_and_spans() {
    let mut w = diag(DiagnosticLevel::Warning, "unused variable: `x`");
    w.spans = vec![span("src/main.rs", 3, 9)];
    let mut e = diag(DiagnosticLevel::Error, "mismatched types");
    e.spans = vec![span("src/lib.rs", 12, 5), span("src/lib.rs", 140, 17)];
    let n = diag(DiagnosticLevel::Help, "consider borrowing");
    let p = DiagParagraph::from(Some(vec![w, n, e]));
    let texts: Vec<&str> = p.0.iter().map(|l| l.text.as_str()).collect();
    assert_eq!(
        texts,
        vec![
            "error: mismatched types",
            "  --> src/lib.rs:12:5\n",
            "  --> src/lib.rs:140:17\n",
            "warning: unused variable: `x`",
            "  --> src/main.rs:3:9\n",
            "info: consider borrowing",
        ]
    );
    let colors: Vec<Option<Color>> = p.0.iter().map(|l| l.color).collect();
    assert_eq!(
        colors,
        vec![Some(Color::Red), None, None, Some(Color::Yellow), None, Some(Color::White)]
    );
    let bold: Vec<bool> = p.0.iter().map(|l| l.bold).collect();
    assert_eq!(bold, vec![true, false, false, true, false, true]);
}

#[test]
fn panel_calls_other_levels_info() {
    for level in [DiagnosticLevel::Ice, DiagnosticLevel::FailureNote, DiagnosticLevel::Note] {
        let p = DiagParagraph::from(Some(vec![diag(level, "m")]));
        assert_eq!(p.0[0].text, "info: m");
        assert_eq!(p.0[0].color, Some(Color::White));
    }
}
