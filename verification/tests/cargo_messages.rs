use cargo_lens::actor::cargo::CargoActor;
use cargo_lens::cg_check::rank_messages;
use cargo_lens::diagnostics::{CargoDispatcher, RankedDiagnostic};
use cargo_lens::message::{Diagnostic, DiagnosticLevel, DiagnosticSpan, StreamMessage};

fn diag(level: DiagnosticLevel, message: &str) -> Diagnostic {
    Diagnostic {
        message: message.to_string(),
        level,
        spans: vec![DiagnosticSpan { file_name: "a.rs".to_string(), line_start: 1, column_start: 2 }],
    }
}

#[test]
fn ranking_follows_level() {
    let cases = [
        (DiagnosticLevel::Ice, "ice"),
        (DiagnosticLevel::Error, "error"),
        (DiagnosticLevel::Warning, "warn"),
        (DiagnosticLevel::FailureNote, "failure"),
        (DiagnosticLevel::Note, "note"),
        (DiagnosticLevel::Help, "help"),
    ];
    for (level, name) in cases {
        let d = diag(level, name);
        let r = RankedDiagnostic::from(d.clone());
        let (variant, inner) = match r {
            RankedDiagnostic::Ice(x) => ("ice", x),
            RankedDiagnostic::Error(x) => ("error", x),
            RankedDiagnostic::Warn(x) => ("warn", x),
            RankedDiagnostic::FailureNote(x) => ("failure", x),
            RankedDiagnostic::Note(x) => ("note", x),
            RankedDiagnostic::Help(x) => ("help", x),
        };
        assert_eq!(variant, name);
        assert_eq!(inner, d);
    }
}

#[test]
fn actor_stops_at_build_end() {
    let mut res = vec![];
    assert!(CargoActor::fetch_step(&mut res, StreamMessage::Other));
    assert!(CargoActor::fetch_step(
        &mut res,
        StreamMessage::CompilerMessage(diag(DiagnosticLevel::Warning, "w"))
    ));
    assert!(CargoActor::fetch_step(&mut res, StreamMessage::Other));
    assert!(CargoActor::fetch_step(
        &mut res,
        StreamMessage::CompilerMessage(diag(DiagnosticLevel::Error, "e"))
    ));
    assert!(!CargoActor::fetch_step(&mut res, StreamMessage::BuildFinished));
    assert_eq!(res, vec![diag(DiagnosticLevel::Warning, "w"), diag(DiagnosticLevel::Error, "e")]);
}

#[test]
fn dispatcher_ranks_what_it_keeps() {
    let mut res = vec![];
    assert!(CargoDispatcher::fetch_step(
        &mut res,
        StreamMessage::CompilerMessage(diag(DiagnosticLevel::Note, "n"))
    ));
    assert!(CargoDispatcher::fetch_step(&mut res, StreamMessage::Other));
    assert!(!CargoDispatcher::fetch_step(&mut res, StreamMessage::BuildFinished));
    assert_eq!(res, vec![RankedDiagnostic::Note(diag(DiagnosticLevel::Note, "n"))]);
}

#[test]
fn rank_all_compiler_messages() {
    let msgs = vec![
        StreamMessage::CompilerMessage(diag(DiagnosticLevel::Error, "e")),
        StreamMessage::Other,
        StreamMessage::BuildFinished,
        StreamMessage::CompilerMessage(diag(DiagnosticLevel::Help, "h")),
    ];
    assert_eq!(
        rank_messages(msgs),
        vec![
            RankedDiagnostic::Error(diag(DiagnosticLevel::Error, "e")),
            RankedDiagnostic::Help(diag(DiagnosticLevel::Help, "h")),
        ]
    );
    assert!(rank_messages(vec![]).is_empty());
}
