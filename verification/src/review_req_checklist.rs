use vstd::prelude::*;

use crate::message::{diagnostics_color, status_color, Diagnostic};
use crate::style::Color;

verus! {

/// What the lint entry of the checklist explains.
pub const LINTS_INFO: &'static str = "TODO: toggle tree to reveal available lints, which can be toggled,
Each item, when indexed, would show the warnings it coveres
also: think about how to aggregate, list, present warnings?
the list-item might look like this when expanded:

▼ Lint-options
  - 'a' - all, 'd' - default, 'n' - none
  [✓] complexity
  [×] correctness
  [✓] deprecated
  [✓] nursery
  [×] pedantic
  [×] perf
  [×] restriction
  [×] style
  [×] suspicious";

/// An entry of the checklist below the cargo status: its name, what it
/// explains, and whether it is ticked.
#[derive(Default, Debug)]
pub struct ReviewReqChecklistItem {
    pub name: String,
    pub info: String,
    pub toggled: bool,
}

/// The checklist: the cargo status (its title, the diagnostics of the last
/// check, whether it is ticked), the entries below it, and the cursor.
/// The cursor `index` is 0 on the cargo status and `k + 1` on `items[k]`.
#[derive(Debug)]
pub struct ReviewReqChecklist {
    pub cargo_status: (String, Vec<Diagnostic>, bool),
    pub items: Vec<ReviewReqChecklistItem>,
    pub index: usize,
}

/// The checklist after a move down, and whether the cursor moved: it moves
/// one entry down unless it is on the last entry.
pub open spec fn moved_down(s: ReviewReqChecklist) -> (bool, ReviewReqChecklist) {
    if s.index < s.items@.len() {
        (true, ReviewReqChecklist { index: (s.index + 1) as usize, ..s })
    } else {
        (false, s)
    }
}

/// The checklist after a move up, and whether the cursor moved: it moves
/// one entry up unless it is on the cargo status.
pub open spec fn moved_up(s: ReviewReqChecklist) -> (bool, ReviewReqChecklist) {
    if s.index > 0 {
        (true, ReviewReqChecklist { index: (s.index - 1) as usize, ..s })
    } else {
        (false, s)
    }
}

/// `t` is `s` with the entry under the cursor ticked or unticked: the cargo
/// status when the cursor is on it, else the entry `items[index - 1]`.
pub open spec fn toggled(s: ReviewReqChecklist, t: ReviewReqChecklist) -> bool {
    &&& t.index == s.index
    &&& t.cargo_status.0 == s.cargo_status.0
    &&& t.cargo_status.1 == s.cargo_status.1
    &&& if s.index == 0 {
        &&& t.cargo_status.2 == !s.cargo_status.2
        &&& t.items == s.items
    } else {
        &&& t.cargo_status.2 == s.cargo_status.2
        &&& t.items@ == s.items@.update(
            s.index - 1,
            ReviewReqChecklistItem { toggled: !s.items@[s.index - 1].toggled, ..s.items@[s.index - 1] },
        )
    }
}

/// The checklist once cargo has answered with `state`.
pub open spec fn noted(s: ReviewReqChecklist, state: Vec<Diagnostic>) -> ReviewReqChecklist {
    ReviewReqChecklist { cargo_status: (s.cargo_status.0, state, s.cargo_status.2), ..s }
}

impl ReviewReqChecklist {
    /// The cursor stands on the cargo status or on an entry.
    pub open spec fn wf(&self) -> bool {
        self.index <= self.items@.len()
    }

    /// A checklist with the cursor on the cargo status, no diagnostics yet,
    /// nothing ticked on the cargo status, and the entries `items`.
    pub fn new(items: Vec<ReviewReqChecklistItem>) -> (res: Self)
        ensures
            res.cargo_status.0@ == "cargo status: "@,
            res.cargo_status.1@ == Seq::<Diagnostic>::empty(),
            !res.cargo_status.2,
            res.items == items,
            res.index == 0,
            res.wf(),
    {
        Self { cargo_status: (String::from_str("cargo status: "), Vec::new(), false), items, index: 0 }
    }

    /// Moves the cursor one entry down, unless it is on the last one;
    /// tells whether it moved.
    pub fn down(&mut self) -> (moved: bool)
        ensures
            (moved, *final(self)) == moved_down(*old(self)),
    {
        if self.index < self.items.len() {
            self.index += 1;
            true
        } else {
            false
        }
    }

    /// Moves the cursor one entry up, unless it is on the cargo status;
    /// tells whether it moved.
    pub fn up(&mut self) -> (moved: bool)
        ensures
            (moved, *final(self)) == moved_up(*old(self)),
    {
        if self.index > 0 {
            self.index -= 1;
            true
        } else {
            false
        }
    }

    /// What the entry under the cursor explains: the cargo status's title,
    /// or the entry's `info`.
    pub fn info(&self) -> (res: Option<&String>)
        requires
            self.wf(),
        ensures
            res == (if self.index == 0 {
                Some(&self.cargo_status.0)
            } else {
                Some(&self.items@[self.index - 1].info)
            }),
    {
        if self.index == 0 {
            Some(&self.cargo_status.0)
        } else {
            Some(&self.items[self.index - 1].info)
        }
    }

    /// Ticks or unticks the entry under the cursor.
    pub fn toggle(&mut self)
        requires
            old(self).wf(),
        ensures
            toggled(*old(self), *final(self)),
    {
        if self.index == 0 {
            self.cargo_status.2 = !self.cargo_status.2;
        } else {
            let k = self.index - 1;
            let mut item = self.items.remove(k);
            item.toggled = !item.toggled;
            self.items.insert(k, item);
            proof {
                assert(self.items@ =~= old(self).items@.update(
                    k as int,
                    ReviewReqChecklistItem {
                        toggled: !old(self).items@[k as int].toggled,
                        ..old(self).items@[k as int]
                    },
                ));
            }
        }
    }

    /// Keeps the diagnostics of the last cargo check.
    pub fn set_cargo_ntfn(&mut self, state: Vec<Diagnostic>)
        ensures
            *final(self) == noted(*old(self), state),
    {
        self.cargo_status.1 = state;
    }

    /// The color of the cargo status: red when the last check reported an
    /// error, else yellow when it reported a warning, else green.
    pub fn cargo_color(&self) -> (res: Color)
        ensures
            res == status_color(self.cargo_status.1@),
    {
        diagnostics_color(&self.cargo_status.1)
    }
}

/// A move down moves the cursor one entry down exactly when it is not on
/// the last entry, and a move up one entry up exactly when it is not on the
/// cargo status; otherwise the cursor stays. Nothing else changes.
pub proof fn lemma_moves(s: ReviewReqChecklist)
    ensures
        moved_down(s).0 <==> s.index < s.items@.len(),
        moved_down(s).1.index == (if s.index < s.items@.len() {
            s.index + 1
        } else {
            s.index as int
        }),
        moved_down(s).1.items == s.items,
        moved_down(s).1.cargo_status == s.cargo_status,
        moved_up(s).0 <==> s.index > 0,
        moved_up(s).1.index == (if s.index > 0 {
            s.index - 1
        } else {
            s.index as int
        }),
        moved_up(s).1.items == s.items,
        moved_up(s).1.cargo_status == s.cargo_status,
{
    assert(s.items@.len() == s.items.len());
}

/// A move down that moved is undone by a move up.
pub proof fn lemma_down_then_up(s: ReviewReqChecklist)
    requires
        moved_down(s).0,
    ensures
        moved_up(moved_down(s).1) == (true, s),
{
    assert(s.items@.len() == s.items.len());
}

/// With the cursor on an entry, a move up that moved is undone by a move down.
pub proof fn lemma_up_then_down(s: ReviewReqChecklist)
    requires
        s.wf(),
        moved_up(s).0,
    ensures
        moved_down(moved_up(s).1) == (true, s),
{
}

/// Moving, ticking, and taking in cargo's answer keep the cursor on the
/// cargo status or on an entry.
pub proof fn lemma_cursor_stays_in_range(
    s: ReviewReqChecklist,
    t: ReviewReqChecklist,
    state: Vec<Diagnostic>,
)
    requires
        s.wf(),
    ensures
        moved_down(s).1.wf(),
        moved_up(s).1.wf(),
        toggled(s, t) ==> t.wf(),
        noted(s, state).wf(),
{
}

/// Ticking with the cursor on an entry flips that entry's tick and keeps
/// its name and text; every other entry, the cargo status and the cursor
/// stay as they were. With the cursor on the cargo status it flips the
/// cargo status's tick and nothing else.
pub proof fn lemma_toggle_flips_entry_under_cursor(s: ReviewReqChecklist, t: ReviewReqChecklist)
    requires
        s.wf(),
        toggled(s, t),
    ensures
        t.index == s.index,
        t.cargo_status.0 == s.cargo_status.0,
        t.cargo_status.1 == s.cargo_status.1,
        t.items@.len() == s.items@.len(),
        s.index == 0 ==> t.cargo_status.2 != s.cargo_status.2 && t.items@ == s.items@,
        s.index > 0 ==> {
            &&& t.cargo_status.2 == s.cargo_status.2
            &&& t.items@[s.index - 1].toggled != s.items@[s.index - 1].toggled
            &&& t.items@[s.index - 1].name == s.items@[s.index - 1].name
            &&& t.items@[s.index - 1].info == s.items@[s.index - 1].info
            &&& forall|k: int|
                0 <= k < s.items@.len() && k != s.index - 1 ==> #[trigger] t.items@[k]
                    == s.items@[k]
        },
{
}

/// Ticking the same entry twice gives back the checklist it started from.
pub proof fn lemma_toggle_twice(s: ReviewReqChecklist, t: ReviewReqChecklist, u: ReviewReqChecklist)
    requires
        s.wf(),
        toggled(s, t),
        toggled(t, u),
    ensures
        u.index == s.index,
        u.cargo_status.0 == s.cargo_status.0,
        u.cargo_status.1 == s.cargo_status.1,
        u.cargo_status.2 == s.cargo_status.2,
        u.items@ == s.items@,
{
    if s.index > 0 {
        assert(u.items@ =~= s.items@);
    }
}

/// After cargo answers, the cargo status has the color of its answer.
pub proof fn lemma_color_follows_answer(s: ReviewReqChecklist, state: Vec<Diagnostic>)
    ensures
        status_color(noted(s, state).cargo_status.1@) == status_color(state@),
{
}

/// The entries of the checklist below the cargo status: one, on lints.
pub fn foo_bar_items() -> (res: Vec<ReviewReqChecklistItem>)
    ensures
        res@.len() == 1,
        res@[0].name@ == "Lints"@,
        res@[0].info@ == LINTS_INFO@,
        !res@[0].toggled,
{
    let mut items: Vec<ReviewReqChecklistItem> = Vec::new();
    items.push(
        ReviewReqChecklistItem {
            name: String::from_str("Lints"),
            info: String::from_str(LINTS_INFO),
            toggled: false,
        },
    );
    items
}

} // verus!
