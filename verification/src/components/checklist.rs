use vstd::prelude::*;

use crate::message::{diagnostics_color, lemma_status_color_by_worst, status_color, Diagnostic};
pub use crate::review_req_checklist::{ReviewReqChecklistItem, LINTS_INFO};
use crate::style::Color;

verus! {

/// The checklist: the cargo status (its title, and the diagnostics of the
/// last check once cargo has answered), the project's to-do entry (its title
/// and what it explains), and the cursor: 0 on the cargo status, 1 on the
/// to-do entry.
#[derive(Debug)]
pub struct ReviewReqChecklist {
    pub cargo_status: (String, Option<Vec<Diagnostic>>),
    pub project_todo: (String, String),
    pub index: usize,
}

/// The color of the cargo status for what cargo answered: gray while it
/// has not answered, else as `status_color` says.
pub open spec fn answer_color(answer: Option<Vec<Diagnostic>>) -> Color {
    match answer {
        None => Color::Gray,
        Some(diags) => status_color(diags@),
    }
}

/// The checklist after a move down, and whether the cursor moved: it moves
/// down to the to-do entry unless it is there already.
pub open spec fn moved_down(s: ReviewReqChecklist) -> (bool, ReviewReqChecklist) {
    if s.index < 1 {
        (true, ReviewReqChecklist { index: (s.index + 1) as usize, ..s })
    } else {
        (false, s)
    }
}

/// The checklist after a move up, and whether the cursor moved: it moves
/// one entry up unless it is on the cargo status.
pub open spec fn moved_up(s: ReviewReqChecklist) -> (bool, ReviewReqChecklist) {
    if s.index > 0 {
        (true, ReviewReqChecklist { index: (s.index - 1) as usize, ..s })
    } else {
        (false, s)
    }
}

/// The checklist once cargo has answered with `state`.
pub open spec fn answered(s: ReviewReqChecklist, state: Vec<Diagnostic>) -> ReviewReqChecklist {
    ReviewReqChecklist { cargo_status: (s.cargo_status.0, Some(state)), ..s }
}

impl ReviewReqChecklist {
    /// The cursor stands on the cargo status or on the to-do entry.
    pub open spec fn wf(&self) -> bool {
        self.index <= 1
    }

    /// A checklist with the cursor on the cargo status, no answer from cargo
    /// yet, and the lint to-do entry.
    pub fn dev_new() -> (res: Self)
        ensures
            res.cargo_status.0@ == "cargo status: "@,
            res.cargo_status.1 is None,
            res.project_todo.0@ == "todo: lints"@,
            res.project_todo.1@ == LINTS_INFO@,
            res.index == 0,
            res.wf(),
    {
        Self {
            cargo_status: (String::from_str("cargo status: "), None),
            project_todo: foo_bar_items(),
            index: 0,
        }
    }

    /// Moves the cursor down to the to-do entry, unless it is there already;
    /// tells whether it moved.
    pub fn down(&mut self) -> (moved: bool)
        ensures
            (moved, *final(self)) == moved_down(*old(self)),
    {
        if self.index < 1 {
            self.index += 1;
            true
        } else {
            false
        }
    }

    /// Moves the cursor one entry up, unless it is on the cargo status;
    /// tells whether it moved.
    pub fn up(&mut self) -> (moved: bool)
        ensures
            (moved, *final(self)) == moved_up(*old(self)),
    {
        if self.index > 0 {
            self.index -= 1;
            true
        } else {
            false
        }
    }

    /// What the entry under the cursor explains: the cargo status's title,
    /// or what the to-do entry explains.
    pub fn info(&self) -> (res: Option<&String>)
        ensures
            res == (if self.index == 0 {
                Some(&self.cargo_status.0)
            } else {
                Some(&self.project_todo.1)
            }),
    {
        if self.index == 0 {
            Some(&self.cargo_status.0)
        } else {
            let res = &self.project_todo.1;
            Some(res)
        }
    }

    /// Keeps the diagnostics of the last cargo check.
    pub fn set_cargo_ntfn(&mut self, state: Vec<Diagnostic>)
        ensures
            *final(self) == answered(*old(self), state),
    {
        self.cargo_status.1 = Some(state);
    }

    /// The color of the cargo status: gray while cargo has not answered,
    /// red when the last check reported an error, else yellow when it
    /// reported a warning, else green.
    pub fn cargo_color(&self) -> (res: Color)
        ensures
            res == answer_color(self.cargo_status.1),
    {
        match &self.cargo_status.1 {
            None => Color::Gray,
            Some(diags) => diagnostics_color(diags),
        }
    }
}

/// From the cargo status a move down moves the cursor to the to-do entry;
/// from the to-do entry a move up moves it to the cargo status; any other
/// move leaves it where it is. Nothing else changes.
pub proof fn lemma_moves(s: ReviewReqChecklist)
    ensures
        moved_down(s).0 <==> s.index == 0,
        moved_down(s).1.index == (if s.index == 0 {
            1
        } else {
            s.index as int
        }),
        moved_down(s).1.cargo_status == s.cargo_status,
        moved_down(s).1.project_todo == s.project_todo,
        moved_up(s).0 <==> s.index > 0,
        moved_up(s).1.index == (if s.index > 0 {
            s.index - 1
        } else {
            s.index as int
        }),
        moved_up(s).1.cargo_status == s.cargo_status,
        moved_up(s).1.project_todo == s.project_todo,
{
}

/// The cargo status is gray exactly while cargo has not answered.
pub proof fn lemma_gray_until_answer(answer: Option<Vec<Diagnostic>>)
    ensures
        (answer_color(answer) == Color::Gray) <==> answer is None,
{
    match answer {
        Some(v) => {
            lemma_status_color_by_worst(v@);
        },
        None => {},
    }
}

/// A move down that moved is undone by a move up.
pub proof fn lemma_down_then_up(s: ReviewReqChecklist)
    requires
        moved_down(s).0,
    ensures
        moved_up(moved_down(s).1) == (true, s),
{
}

/// With the cursor on an entry, a move up that moved is undone by a move down.
pub proof fn lemma_up_then_down(s: ReviewReqChecklist)
    requires
        s.wf(),
        moved_up(s).0,
    ensures
        moved_down(moved_up(s).1) == (true, s),
{
}

/// Moving and taking in cargo's answer keep the cursor on the cargo status
/// or on the to-do entry.
pub proof fn lemma_cursor_stays_in_range(s: ReviewReqChecklist, state: Vec<Diagnostic>)
    requires
        s.wf(),
    ensures
        moved_down(s).1.wf(),
        moved_up(s).1.wf(),
        answered(s, state).wf(),
{
}

/// The cargo status is gray until cargo answers; after it answers, it has
/// the color of the answer.
pub proof fn lemma_color_follows_answer(s: ReviewReqChecklist, state: Vec<Diagnostic>)
    ensures
        answer_color(None) == Color::Gray,
        answer_color(answered(s, state).cargo_status.1) == status_color(state@),
{
}

/// The project's to-do entry: its title and what it explains.
pub fn foo_bar_items() -> (res: (String, String))
    ensures
        res.0@ == "todo: lints"@,
        res.1@ == LINTS_INFO@,
{
    (String::from_str("todo: lints"), String::from_str(LINTS_INFO))
}

} // verus!
