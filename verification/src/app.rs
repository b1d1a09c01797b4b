use vstd::prelude::*;

use crate::components::checklist::ReviewReqChecklist;
use crate::components::diagnostic::{line_views, panel_lines, DiagParagraph};
use crate::message::clone_diagnostics;
use crate::style::{Color, StyledLine};

verus! {

/// The state of the terminal view: the checklist it shows.
pub struct App {
    /// The checklist's data.
    pub list: ReviewReqChecklist,
}

/// What the info panel beside the checklist shows.
pub enum InfoPanel {
    /// The diagnostics of the last cargo check (the cursor is on the cargo status).
    Diagnostics(DiagParagraph),
    /// What the to-do entry explains (the cursor is on it).
    Text(String),
}

/// The mark in front of each entry: not ticked.
pub open spec fn cross_prefix() -> Seq<char> {
    "[×] - "@
}

/// The lines of the checklist: one for the cargo status and one for the
/// to-do entry, each behind the mark, the one under the cursor in bold.
pub open spec fn checklist_lines(list: ReviewReqChecklist) -> Seq<(Seq<char>, Option<Color>, bool)> {
    seq![
        (cross_prefix() + list.cargo_status.0@, None, list.index == 0),
        (cross_prefix() + list.project_todo.0@, None, list.index == 1),
    ]
}

/// The checklist shows two lines, the cargo status's title and then the
/// to-do entry's title, each behind `[×] - `, unstyled, and exactly the
/// line under the cursor is bold.
pub proof fn lemma_checklist_lines(list: ReviewReqChecklist)
    ensures
        checklist_lines(list).len() == 2,
        checklist_lines(list)[0].0 == "[×] - "@ + list.cargo_status.0@,
        checklist_lines(list)[1].0 == "[×] - "@ + list.project_todo.0@,
        forall|k: int|
            0 <= k < 2 ==> (#[trigger] checklist_lines(list)[k]).1 is None && (checklist_lines(
                list,
            )[k].2 <==> list.index == k),
{
}

impl App {
    /// The view of `list`.
    pub fn new(list: ReviewReqChecklist) -> (res: Self)
        ensures
            res.list == list,
    {
        Self { list }
    }

    /// The lines of the checklist panel.
    pub fn lines(&self) -> (res: Vec<StyledLine>)
        ensures
            line_views(res@) == checklist_lines(self.list),
    {
        let mut line1 = String::from_str("[×] - ");
        line1.append(self.list.cargo_status.0.as_str());
        let mut line2 = String::from_str("[×] - ");
        line2.append(self.list.project_todo.0.as_str());
        let mut res: Vec<StyledLine> = Vec::new();
        res.push(StyledLine { text: line1, color: None, bold: self.list.index == 0 });
        res.push(StyledLine { text: line2, color: None, bold: self.list.index == 1 });
        proof {
            assert(line_views(res@) =~= checklist_lines(self.list));
        }
        res
    }

    /// What the info panel shows: the diagnostics panel while the cursor is
    /// on the cargo status, else what the to-do entry explains.
    pub fn info_panel(&self) -> (res: InfoPanel)
        ensures
            self.list.index == 0 ==> (res matches InfoPanel::Diagnostics(p) && line_views(p.0@)
                == panel_lines(
                match self.list.cargo_status.1 {
                    Some(v) => Some(v.deep_view()),
                    None => None,
                },
            )),
            self.list.index != 0 ==> (res matches InfoPanel::Text(t) && t@
                == self.list.project_todo.1@),
    {
        if self.list.index == 0 {
            let diags = match &self.list.cargo_status.1 {
                Some(v) => Some(clone_diagnostics(v)),
                None => None,
            };
            InfoPanel::Diagnostics(DiagParagraph::from(diags))
        } else {
            InfoPanel::Text(self.list.project_todo.1.clone())
        }
    }
}

} // verus!
