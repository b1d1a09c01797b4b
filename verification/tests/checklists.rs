use cargo_lens::components::checklist::{self, ReviewReqChecklist as Checklist};
use cargo_lens::message::{Diagnostic, DiagnosticLevel};
use cargo_lens::review_req_checklist::{
    foo_bar_items, ReviewReqChecklist, ReviewReqChecklistItem, LINTS_INFO,
};
use cargo_lens::style::Color;

fn diag(level: DiagnosticLevel) -> Diagnostic {
    Diagnostic { message: "m".to_string(), level, spans: vec![] }
}

fn item(name: &str) -> ReviewReqChecklistItem {
    ReviewReqChecklistItem { name: name.to_string(), info: format!("about {}", name), toggled: false }
}

#[test]
fn lint_items() {
    let items = foo_bar_items();
    assert_eq!(items.len(), 1);
    assert_eq!(items[0].name, "Lints");
    assert_eq!(items[0].info, LINTS_INFO);
    assert!(items[0].info.starts_with("TODO: toggle tree"));
    assert!(items[0].info.ends_with("[×] suspicious"));
    assert!(!items[0].toggled);
    let todo = checklist::foo_bar_items();
    assert_eq!(todo.0, "todo: lints");
    assert_eq!(todo.1, LINTS_INFO);
}

#[test]
fn new_checklist_starts_on_cargo_status() {
    let list = ReviewReqChecklist::new(foo_bar_items());
    assert_eq!(list.cargo_status.0, "cargo status: ");
    assert!(list.cargo_status.1.is_empty());
    assert!(!list.cargo_status.2);
    assert_eq!(list.index, 0);
    assert_eq!(list.info(), Some(&"cargo status: ".to_string()));
}

#[test]
fn cursor_moves_within_entries() {
    let mut list = ReviewReqChecklist::new(vec![item("a"), item("b")]);
    assert!(!list.up());
    assert_eq!(list.index, 0);
    assert!(list.down());
    assert_eq!(list.info(), Some(&"about a".to_string()));
    assert!(list.down());
    assert_eq!(list.info(), Some(&"about b".to_string()));
    assert!(!list.down());
    assert_eq!(list.index, 2);
    assert!(list.up());
    assert_eq!(list.index, 1);
}

#[test]
fn down_then_up_returns() {
    let mut list = ReviewReqChecklist::new(vec![item("a")]);
    assert!(list.down());
    assert!(list.up());
    assert_eq!(list.index, 0);
}

#[test]
fn toggle_ticks_entry_under_cursor() {
    let mut list = ReviewReqChecklist::new(vec![item("a"), item("b")]);
    list.toggle();
    assert!(list.cargo_status.2);
    assert!(!list.items[0].toggled && !list.items[1].toggled);
    list.down();
    list.down();
    list.toggle();
    assert!(list.items[1].toggled);
    assert!(!list.items[0].toggled);
    assert_eq!(list.items[1].name, "b");
    list.toggle();
    assert!(!list.items[1].toggled);
    assert!(list.cargo_status.2);
}

#[test]
fn cargo_color_by_worst_diagnostic() {
    let mut list = ReviewReqChecklist::new(vec![]);
    assert_eq!(list.cargo_color(), Color::Green);
    list.set_cargo_ntfn(vec![diag(DiagnosticLevel::Note), diag(DiagnosticLevel::Help)]);
    assert_eq!(list.cargo_color(), Color::Green);
    list.set_cargo_ntfn(vec![diag(DiagnosticLevel::Note), diag(DiagnosticLevel::Warning)]);
    assert_eq!(list.cargo_color(), Color::Yellow);
    list.set_cargo_ntfn(vec![
        diag(DiagnosticLevel::Warning),
        diag(DiagnosticLevel::Error),
        diag(DiagnosticLevel::Warning),
    ]);
    assert_eq!(list.cargo_color(), Color::Red);
    assert_eq!(list.cargo_status.1.len(), 3);
    list.set_cargo_ntfn(vec![diag(DiagnosticLevel::Ice)]);
    assert_eq!(list.cargo_color(), Color::Green);
}

#[test]
fn dev_checklist() {
    let mut list = Checklist::dev_new();
    assert_eq!(list.cargo_status.0, "cargo status: ");
    assert!(list.cargo_status.1.is_none());
    assert_eq!(list.project_todo.0, "todo: lints");
    assert_eq!(list.project_todo.1, LINTS_INFO);
    assert_eq!(list.index, 0);
    assert_eq!(list.info(), Some(&"cargo status: ".to_string()));
    assert!(!list.up());
    assert!(list.down());
    assert!(!list.down());
    assert_eq!(list.index, 1);
    assert_eq!(list.info(), Some(&LINTS_INFO.to_string()));
    assert!(list.up());
    assert_eq!(list.index, 0);
}

#[test]
fn dev_checklist_color() {
    let mut list = Checklist::dev_new();
    assert_eq!(list.cargo_color(), Color::Gray);
    list.set_cargo_ntfn(vec![]);
    assert_eq!(list.cargo_color(), Color::Green);
    list.set_cargo_ntfn(vec![diag(DiagnosticLevel::Warning)]);
    assert_eq!(list.cargo_color(), Color::Yellow);
    list.set_cargo_ntfn(vec![diag(DiagnosticLevel::Warning), diag(DiagnosticLevel::Error)]);
    assert_eq!(list.cargo_color(), Color::Red);
    assert_eq!(list.cargo_status.1.as_ref().map(|v| v.len()), Some(2));
}
