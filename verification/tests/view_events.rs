use cargo_lens::app::{App, InfoPanel};
use cargo_lens::components::checklist::ReviewReqChecklist;
use cargo_lens::events::{
    handle_event, AsyncNtfn, InputEvent, KeyCode, LoopAction, QueueEvent,
};
use cargo_lens::message::{Diagnostic, DiagnosticLevel};
use cargo_lens::review_req_checklist::LINTS_INFO;
use cargo_lens::style::Color;

fn key(k: KeyCode) -> QueueEvent {
    QueueEvent::InputEvent(InputEvent::Key(k))
}

#[test]
fn checklist_lines_mark_cursor() {
    let mut app = App::new(ReviewReqChecklist::dev_new());
    let lines = app.lines();
    assert_eq!(lines.len(), 2);
    assert_eq!(lines[0].text, "[×] - cargo status: ");
    assert_eq!(lines[1].text, "[×] - todo: lints");
    assert!(lines[0].bold && !lines[1].bold);
    assert_eq!(lines[0].color, None);
    app.list.down();
    let lines = app.lines();
    assert!(!lines[0].bold && lines[1].bold);
}

#[test]
fn info_panel_follows_cursor() {
    let mut app = App::new(ReviewReqChecklist::dev_new());
    match app.info_panel() {
        InfoPanel::Diagnostics(p) => assert_eq!(p.0[0].text, "waiting..."),
        InfoPanel::Text(_) => panic!("expected the diagnostics panel"),
    }
    app.list.set_cargo_ntfn(vec![Diagnostic {
        message: "oops".to_string(),
        level: DiagnosticLevel::Error,
        spans: vec![],
    }]);
    match app.info_panel() {
        InfoPanel::Diagnostics(p) => {
            assert_eq!(p.0.len(), 1);
            assert_eq!(p.0[0].text, "error: oops");
            assert_eq!(p.0[0].color, Some(Color::Red));
        }
        InfoPanel::Text(_) => panic!("expected the diagnostics panel"),
    }
    app.list.down();
    match app.info_panel() {
        InfoPanel::Text(t) => assert_eq!(t, LINTS_INFO),
        InfoPanel::Diagnostics(_) => panic!("expected the to-do text"),
    }
}

#[test]
fn keys_move_and_quit() {
    let mut app = App::new(ReviewReqChecklist::dev_new());
    assert_eq!(handle_event(&mut app, key(KeyCode::Down)), LoopAction::Redraw);
    assert_eq!(app.list.index, 1);
    assert_eq!(handle_event(&mut app, key(KeyCode::Down)), LoopAction::Redraw);
    assert_eq!(app.list.index, 1);
    assert_eq!(handle_event(&mut app, key(KeyCode::Up)), LoopAction::Redraw);
    assert_eq!(app.list.index, 0);
    assert_eq!(handle_event(&mut app, key(KeyCode::Up)), LoopAction::Redraw);
    assert_eq!(app.list.index, 0);
    assert_eq!(handle_event(&mut app, key(KeyCode::Tab)), LoopAction::Redraw);
    assert_eq!(app.list.index, 0);
    assert_eq!(handle_event(&mut app, key(KeyCode::Char('x'))), LoopAction::Continue);
    assert_eq!(handle_event(&mut app, key(KeyCode::Other)), LoopAction::Continue);
    assert_eq!(handle_event(&mut app, QueueEvent::InputEvent(InputEvent::Other)), LoopAction::Continue);
    assert_eq!(handle_event(&mut app, QueueEvent::InputEvent(InputEvent::Failed)), LoopAction::Continue);
    assert_eq!(handle_event(&mut app, key(KeyCode::Char('q'))), LoopAction::Quit);
    assert_eq!(app.list.index, 0);
}

#[test]
fn cargo_answer_is_kept() {
    let mut app = App::new(ReviewReqChecklist::dev_new());
    let diags = vec![Diagnostic {
        message: "w".to_string(),
        level: DiagnosticLevel::Warning,
        spans: vec![],
    }];
    let action = handle_event(&mut app, QueueEvent::AsyncEvent(AsyncNtfn::Cargo(diags.clone())));
    assert_eq!(action, LoopAction::Redraw);
    assert_eq!(app.list.cargo_status.1, Some(diags));
    assert_eq!(app.list.cargo_color(), Color::Yellow);
}
