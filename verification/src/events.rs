use vstd::prelude::*;

use crate::app::App;
use crate::components::checklist::{answered, moved_down, moved_up};
use crate::message::Diagnostic;

verus! {

#[derive(Clone, Copy, Debug, PartialEq, Eq, Structural)]
pub enum SyntaxHighlightProgress {
    _Progress,
    _Done,
}

#[derive(Clone, Copy, Debug, PartialEq, Eq, Structural)]
pub enum AsyncAppNtfn {
    _SyntaxHighlighting(SyntaxHighlightProgress),
}

/// A notification from the work that runs beside the view.
#[derive(Debug)]
pub enum AsyncNtfn {
    _App(AsyncAppNtfn),
    /// `cargo check` has answered with these diagnostics.
    Cargo(Vec<Diagnostic>),
}

/// The keys the view tells apart.
#[derive(Clone, Copy, Debug, PartialEq, Eq, Structural)]
pub enum KeyCode {
    Up,
    Down,
    Tab,
    Char(char),
    /// Any other key.
    Other,
}

/// What the terminal reported.
#[derive(Clone, Copy, Debug, PartialEq, Eq, Structural)]
pub enum InputEvent {
    /// A key was pressed.
    Key(KeyCode),
    /// Any other terminal event (mouse, resize, focus, paste).
    Other,
    /// Reading the terminal failed.
    Failed,
}

/// One event of the view's queue.
#[derive(Debug)]
pub enum QueueEvent {
    AsyncEvent(AsyncNtfn),
    InputEvent(InputEvent),
}

/// What the view does after an event.
#[derive(Clone, Copy, Debug, PartialEq, Eq, Structural)]
pub enum LoopAction {
    /// Draw the view again.
    Redraw,
    /// Wait for the next event without drawing.
    Continue,
    /// Leave the view.
    Quit,
}

/// Applies one event of the queue to the view: cargo's answer is kept,
/// the arrow keys move the cursor, Tab asks for a redraw (the checklist has
/// nothing to tick), `q` quits, anything else is passed over.
pub fn handle_event(app: &mut App, event: QueueEvent) -> (action: LoopAction)
    requires
        !(event matches QueueEvent::AsyncEvent(AsyncNtfn::_App(_))),
    ensures
        match event {
            QueueEvent::AsyncEvent(AsyncNtfn::Cargo(diags)) => {
                &&& action == LoopAction::Redraw
                &&& final(app).list == answered(old(app).list, diags)
            },
            QueueEvent::InputEvent(InputEvent::Key(KeyCode::Up)) => {
                &&& action == LoopAction::Redraw
                &&& final(app).list == moved_up(old(app).list).1
            },
            QueueEvent::InputEvent(InputEvent::Key(KeyCode::Down)) => {
                &&& action == LoopAction::Redraw
                &&& final(app).list == moved_down(old(app).list).1
            },
            QueueEvent::InputEvent(InputEvent::Key(KeyCode::Tab)) => {
                &&& action == LoopAction::Redraw
                &&& *final(app) == *old(app)
            },
            QueueEvent::InputEvent(InputEvent::Key(KeyCode::Char('q'))) => {
                &&& action == LoopAction::Quit
                &&& *final(app) == *old(app)
            },
            _ => {
                &&& action == LoopAction::Continue
                &&& *final(app) == *old(app)
            },
        },
{
    match event {
        QueueEvent::AsyncEvent(AsyncNtfn::Cargo(ntfn)) => {
            app.list.set_cargo_ntfn(ntfn);
            LoopAction::Redraw
        },
        QueueEvent::AsyncEvent(AsyncNtfn::_App(_app)) => LoopAction::Continue,
        QueueEvent::InputEvent(InputEvent::Key(k)) => match k {
            KeyCode::Up => {
                app.list.up();
                LoopAction::Redraw
            },
            KeyCode::Down => {
                app.list.down();
                LoopAction::Redraw
            },
            KeyCode::Tab => LoopAction::Redraw,
            KeyCode::Char('q') => LoopAction::Quit,
            _ => LoopAction::Continue,
        },
        QueueEvent::InputEvent(_) => LoopAction::Continue,
    }
}

} // verus!
