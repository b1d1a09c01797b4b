use vstd::prelude::*;

use crate::style::Color;

verus! {

/// How severe a compiler diagnostic is.
#[derive(Clone, Copy, Debug, PartialEq, Eq, Hash, Structural)]
pub enum DiagnosticLevel {
    /// Internal compiler error.
    Ice,
    Error,
    Warning,
    FailureNote,
    Note,
    Help,
}

/// A place in a source file that a diagnostic points at.
#[derive(Debug, PartialEq, Eq, Hash)]
pub struct DiagnosticSpan {
    pub file_name: String,
    pub line_start: usize,
    pub column_start: usize,
}

/// A diagnostic message of the compiler, with what of it the checklist reads.
#[derive(Debug, PartialEq, Eq, Hash)]
pub struct Diagnostic {
    pub message: String,
    pub level: DiagnosticLevel,
    pub spans: Vec<DiagnosticSpan>,
}

/// What a span is, as a mathematical value.
pub struct SpanModel {
    pub file_name: Seq<char>,
    pub line_start: usize,
    pub column_start: usize,
}

/// What a diagnostic is, as a mathematical value.
pub struct DiagnosticModel {
    pub message: Seq<char>,
    pub level: DiagnosticLevel,
    pub spans: Seq<SpanModel>,
}

impl View for DiagnosticSpan {
    type V = SpanModel;

    open spec fn view(&self) -> SpanModel {
        SpanModel {
            file_name: self.file_name@,
            line_start: self.line_start,
            column_start: self.column_start,
        }
    }
}

impl DeepView for DiagnosticSpan {
    type V = SpanModel;

    open spec fn deep_view(&self) -> SpanModel {
        self@
    }
}

impl View for Diagnostic {
    type V = DiagnosticModel;

    open spec fn view(&self) -> DiagnosticModel {
        DiagnosticModel {
            message: self.message@,
            level: self.level,
            spans: self.spans.deep_view(),
        }
    }
}

impl DeepView for Diagnostic {
    type V = DiagnosticModel;

    open spec fn deep_view(&self) -> DiagnosticModel {
        self@
    }
}

impl Clone for DiagnosticSpan {
    fn clone(&self) -> (res: Self)
        ensures
            res == *self,
    {
        DiagnosticSpan {
            file_name: self.file_name.clone(),
            line_start: self.line_start,
            column_start: self.column_start,
        }
    }
}

impl Clone for Diagnostic {
    fn clone(&self) -> (res: Self)
        ensures
            res@ == self@,
    {
        let spans = self.spans.clone();
        proof {
            assert(spans@ =~= self.spans@);
            assert(spans.deep_view() =~= self.spans.deep_view());
        }
        Diagnostic { message: self.message.clone(), level: self.level, spans }
    }
}

/// A copy of the diagnostics `diags`.
pub fn clone_diagnostics(diags: &Vec<Diagnostic>) -> (res: Vec<Diagnostic>)
    ensures
        res.deep_view() == diags.deep_view(),
{
    let res = diags.clone();
    proof {
        assert(res.deep_view() =~= diags.deep_view()) by {
            assert forall|i: int| 0 <= i < res@.len() implies res@[i]@ == diags@[i]@ by {
                assert(cloned::<Diagnostic>(diags[i], res[i]));
            }
        }
    }
    res
}

/// One message of the JSON stream that `cargo check --message-format=json`
/// writes, as far as the checklist tells them apart.
#[derive(Debug, PartialEq, Eq)]
pub enum StreamMessage {
    /// The compiler wants to display a diagnostic.
    CompilerMessage(Diagnostic),
    /// The build has finished; it is the last message of a build.
    BuildFinished,
    /// Any other message, or a line that could not be read.
    Other,
}

/// Whether some diagnostic of `diags` has level `level`.
pub open spec fn has_level(diags: Seq<Diagnostic>, level: DiagnosticLevel) -> bool {
    exists|i: int| 0 <= i < diags.len() && #[trigger] diags[i].level == level
}

/// The color of the cargo status for the diagnostics of a check: red when
/// there is an error, else yellow when there is a warning, else green.
pub open spec fn status_color(diags: Seq<Diagnostic>) -> Color {
    if has_level(diags, DiagnosticLevel::Error) {
        Color::Red
    } else if has_level(diags, DiagnosticLevel::Warning) {
        Color::Yellow
    } else {
        Color::Green
    }
}

/// The cargo status is red exactly when some diagnostic is an error,
/// yellow exactly when none is an error and some is a warning, and green
/// exactly when none is either.
pub proof fn lemma_status_color_by_worst(diags: Seq<Diagnostic>)
    ensures
        (status_color(diags) == Color::Red) <==> (exists|i: int|
            0 <= i < diags.len() && #[trigger] diags[i].level == DiagnosticLevel::Error),
        (status_color(diags) == Color::Yellow) <==> (!(exists|i: int|
            0 <= i < diags.len() && #[trigger] diags[i].level == DiagnosticLevel::Error) && (exists|
            i: int,
        |
            0 <= i < diags.len() && #[trigger] diags[i].level == DiagnosticLevel::Warning)),
        (status_color(diags) == Color::Green) <==> (!(exists|i: int|
            0 <= i < diags.len() && #[trigger] diags[i].level == DiagnosticLevel::Error) && !(exists|
            i: int,
        |
            0 <= i < diags.len() && #[trigger] diags[i].level == DiagnosticLevel::Warning)),
{
}

/// The color of the cargo status for `diags` (see `status_color`).
pub fn diagnostics_color(diags: &Vec<Diagnostic>) -> (res: Color)
    ensures
        res == status_color(diags@),
{
    let mut res = Color::Green;
    let mut i: usize = 0;
    while i < diags.len()
        invariant
            i <= diags@.len(),
            !has_level(diags@.take(i as int), DiagnosticLevel::Error),
            res == (if has_level(diags@.take(i as int), DiagnosticLevel::Warning) {
                Color::Yellow
            } else {
                Color::Green
            }),
        decreases diags@.len() - i,
    {
        let ghost prefix = diags@.take(i as int);
        let ghost next = diags@.take(i + 1);
        proof {
            assert forall|k: int| 0 <= k < prefix.len() implies next[k] == prefix[k] by {}
            assert(next[i as int] == diags@[i as int]);
        }
        if diags[i].level == DiagnosticLevel::Error {
            proof {
                assert(next[i as int].level == DiagnosticLevel::Error);
                assert(has_level(diags@, DiagnosticLevel::Error)) by {
                    assert(diags@[i as int].level == DiagnosticLevel::Error);
                }
            }
            return Color::Red;
        } else if diags[i].level == DiagnosticLevel::Warning {
            res = Color::Yellow;
            proof {
                assert(next[i as int].level == DiagnosticLevel::Warning);
            }
        }
        proof {
            if has_level(next, DiagnosticLevel::Error) {
                let k = choose|k: int| 0 <= k < next.len() && #[trigger] next[k].level == DiagnosticLevel::Error;
                if k < i {
                    assert(prefix[k].level == DiagnosticLevel::Error);
                }
            }
            if has_level(prefix, DiagnosticLevel::Warning) {
                let k = choose|k: int| 0 <= k < prefix.len() && #[trigger] prefix[k].level == DiagnosticLevel::Warning;
                assert(next[k].level == DiagnosticLevel::Warning);
            }
            if has_level(next, DiagnosticLevel::Warning) {
                let k = choose|k: int| 0 <= k < next.len() && #[trigger] next[k].level == DiagnosticLevel::Warning;
                if k < i {
                    assert(prefix[k].level == DiagnosticLevel::Warning);
                }
            }
        }
        i = i + 1;
    }
    proof {
        assert(diags@.take(i as int) =~= diags@);
    }
    res
}

} // verus!
