use vstd::prelude::*;

use crate::actor::cargo::{
    before_build_end, has_build_end, lemma_read_stream_stops_at_build_end, read_stream,
};
use crate::message::{Diagnostic, DiagnosticLevel, StreamMessage};

verus! {

/// A diagnostic, told apart by its level.
#[derive(Debug, Clone, PartialEq, Eq, Hash)]
pub enum RankedDiagnostic {
    Warn(Diagnostic),
    Error(Diagnostic),
    Ice(Diagnostic),
    FailureNote(Diagnostic),
    Note(Diagnostic),
    Help(Diagnostic),
}

/// The ranked form of `value`: the variant named after its level, holding it.
pub open spec fn ranked(value: Diagnostic) -> RankedDiagnostic {
    match value.level {
        DiagnosticLevel::Ice => RankedDiagnostic::Ice(value),
        DiagnosticLevel::Error => RankedDiagnostic::Error(value),
        DiagnosticLevel::Warning => RankedDiagnostic::Warn(value),
        DiagnosticLevel::FailureNote => RankedDiagnostic::FailureNote(value),
        DiagnosticLevel::Note => RankedDiagnostic::Note(value),
        DiagnosticLevel::Help => RankedDiagnostic::Help(value),
    }
}

/// The diagnostic that a ranked diagnostic holds.
pub open spec fn unranked(r: RankedDiagnostic) -> Diagnostic {
    match r {
        RankedDiagnostic::Warn(d) => d,
        RankedDiagnostic::Error(d) => d,
        RankedDiagnostic::Ice(d) => d,
        RankedDiagnostic::FailureNote(d) => d,
        RankedDiagnostic::Note(d) => d,
        RankedDiagnostic::Help(d) => d,
    }
}

/// Ranking keeps the diagnostic as it is and picks the variant named after
/// its level.
pub proof fn lemma_ranked_by_level(d: Diagnostic)
    ensures
        unranked(ranked(d)) == d,
        (ranked(d) is Ice) <==> d.level == DiagnosticLevel::Ice,
        (ranked(d) is Error) <==> d.level == DiagnosticLevel::Error,
        (ranked(d) is Warn) <==> d.level == DiagnosticLevel::Warning,
        (ranked(d) is FailureNote) <==> d.level == DiagnosticLevel::FailureNote,
        (ranked(d) is Note) <==> d.level == DiagnosticLevel::Note,
        (ranked(d) is Help) <==> d.level == DiagnosticLevel::Help,
{
}

impl RankedDiagnostic {
    /// Ranks `value` by its level.
    pub fn from(value: Diagnostic) -> (res: Self)
        ensures
            res == ranked(value),
    {
        match value.level {
            DiagnosticLevel::Ice => Self::Ice(value),
            DiagnosticLevel::Error => Self::Error(value),
            DiagnosticLevel::Warning => Self::Warn(value),
            DiagnosticLevel::FailureNote => Self::FailureNote(value),
            DiagnosticLevel::Note => Self::Note(value),
            DiagnosticLevel::Help => Self::Help(value),
        }
    }
}

/// What taking in `msg` does to the ranked diagnostics gathered so far,
/// `acc`: whether to read on, and the ranked diagnostics gathered then.
pub open spec fn fetch_ranked_after(acc: Seq<RankedDiagnostic>, msg: StreamMessage) -> (
    bool,
    Seq<RankedDiagnostic>,
) {
    match msg {
        StreamMessage::CompilerMessage(d) => (true, acc.push(ranked(d))),
        StreamMessage::BuildFinished => (false, acc),
        StreamMessage::Other => (true, acc),
    }
}

/// Reading `msgs` one after the other from nothing with
/// `CargoDispatcher::fetch_step`, until a step says to stop: whether reading
/// would go on, and the ranked diagnostics gathered.
pub open spec fn read_ranked_stream(msgs: Seq<StreamMessage>) -> (bool, Seq<RankedDiagnostic>)
    decreases msgs.len(),
{
    if msgs.len() == 0 {
        (true, Seq::empty())
    } else {
        let prev = read_ranked_stream(msgs.drop_last());
        if prev.0 {
            fetch_ranked_after(prev.1, msgs.last())
        } else {
            prev
        }
    }
}

/// Reading a stream with `CargoDispatcher::fetch_step` gathers what reading
/// it with `CargoActor::fetch_step` gathers, each diagnostic ranked, in the
/// same order, and stops at the same message.
pub proof fn lemma_ranked_run_is_ranked_actor_run(msgs: Seq<StreamMessage>)
    ensures
        read_ranked_stream(msgs) == (
            read_stream(msgs).0,
            read_stream(msgs).1.map_values(|d: Diagnostic| ranked(d)),
        ),
    decreases msgs.len(),
{
    if msgs.len() > 0 {
        let prev = msgs.drop_last();
        lemma_ranked_run_is_ranked_actor_run(prev);
        let acc = read_stream(prev).1;
        match msgs.last() {
            StreamMessage::CompilerMessage(d) => {
                assert(acc.push(d).map_values(|d: Diagnostic| ranked(d)) =~= acc.map_values(
                    |d: Diagnostic| ranked(d),
                ).push(ranked(d)));
            },
            _ => {},
        }
    }
}

/// Reading a stream with `CargoDispatcher::fetch_step` gathers the compiler
/// messages that come before the end of the build, ranked, in order, and goes
/// on reading exactly while no end of build has come.
pub proof fn lemma_ranked_run_stops_at_build_end(msgs: Seq<StreamMessage>)
    ensures
        read_ranked_stream(msgs) == (
            !has_build_end(msgs),
            before_build_end(msgs).map_values(|d: Diagnostic| ranked(d)),
        ),
{
    lemma_ranked_run_is_ranked_actor_run(msgs);
    lemma_read_stream_stops_at_build_end(msgs);
}

/// Runs `cargo check` and ranks the diagnostics it reports.
pub struct CargoDispatcher;

impl CargoDispatcher {
    /// Takes in the next message that `cargo check` wrote: a compiler
    /// message is ranked and kept in `res`, the end of the build stops the
    /// reading, any other message is passed over. Tells whether to read on.
    pub fn fetch_step(res: &mut Vec<RankedDiagnostic>, msg: StreamMessage) -> (read_on: bool)
        ensures
            (read_on, final(res)@) == fetch_ranked_after(old(res)@, msg),
    {
        match msg {
            StreamMessage::CompilerMessage(good_msg) => {
                res.push(RankedDiagnostic::from(good_msg));
                true
            },
            StreamMessage::BuildFinished => false,
            StreamMessage::Other => true,
        }
    }
}

} // verus!
