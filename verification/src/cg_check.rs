use vstd::prelude::*;

use crate::message::StreamMessage;
pub use crate::diagnostics::RankedDiagnostic;
use crate::diagnostics::ranked;
use crate::message::Diagnostic;

verus! {

/// The compiler messages of `msgs`, ranked, in their order in `msgs`.
pub open spec fn ranked_messages(msgs: Seq<StreamMessage>) -> Seq<RankedDiagnostic>
    decreases msgs.len(),
{
    if msgs.len() == 0 {
        Seq::empty()
    } else {
        let rest = ranked_messages(msgs.drop_last());
        match msgs.last() {
            StreamMessage::CompilerMessage(d) => rest.push(ranked(d)),
            _ => rest,
        }
    }
}

/// The diagnostics of the compiler messages of `msgs`, in order, whatever
/// comes between or after them.
pub open spec fn compiler_messages(msgs: Seq<StreamMessage>) -> Seq<Diagnostic>
    decreases msgs.len(),
{
    if msgs.len() == 0 {
        Seq::empty()
    } else {
        match msgs[0] {
            StreamMessage::CompilerMessage(d) => seq![d] + compiler_messages(msgs.skip(1)),
            _ => compiler_messages(msgs.skip(1)),
        }
    }
}

proof fn lemma_compiler_messages_push(msgs: Seq<StreamMessage>, msg: StreamMessage)
    ensures
        compiler_messages(msgs.push(msg)) == (match msg {
            StreamMessage::CompilerMessage(d) => compiler_messages(msgs).push(d),
            _ => compiler_messages(msgs),
        }),
    decreases msgs.len(),
{
    let pushed = msgs.push(msg);
    if msgs.len() == 0 {
        assert(pushed.skip(1) =~= Seq::<StreamMessage>::empty());
        assert(compiler_messages(pushed.skip(1)) == Seq::<Diagnostic>::empty());
        assert(pushed[0] == msg);
        match msg {
            StreamMessage::CompilerMessage(d) => {
                assert(seq![d] + Seq::<Diagnostic>::empty() =~= Seq::<Diagnostic>::empty().push(d));
            },
            _ => {},
        }
    } else {
        let tail = msgs.skip(1);
        assert(pushed.skip(1) =~= tail.push(msg));
        assert(pushed[0] == msgs[0]);
        lemma_compiler_messages_push(tail, msg);
        match msgs[0] {
            StreamMessage::CompilerMessage(d0) => {
                match msg {
                    StreamMessage::CompilerMessage(d) => {
                        assert(seq![d0] + compiler_messages(tail).push(d) =~= (seq![d0]
                            + compiler_messages(tail)).push(d));
                    },
                    _ => {},
                }
            },
            _ => {},
        }
    }
}

/// Ranking a build's messages gives one ranked diagnostic for each compiler
/// message, in order, and nothing for any other message.
pub proof fn lemma_ranked_messages_keep_every_compiler_message(msgs: Seq<StreamMessage>)
    ensures
        ranked_messages(msgs) == compiler_messages(msgs).map_values(|d: Diagnostic| ranked(d)),
    decreases msgs.len(),
{
    if msgs.len() == 0 {
        assert(compiler_messages(msgs).map_values(|d: Diagnostic| ranked(d)) =~= Seq::empty());
    } else {
        let prev = msgs.drop_last();
        lemma_ranked_messages_keep_every_compiler_message(prev);
        lemma_compiler_messages_push(prev, msgs.last());
        assert(msgs =~= prev.push(msgs.last()));
        match msgs.last() {
            StreamMessage::CompilerMessage(d) => {
                assert(compiler_messages(prev).push(d).map_values(|d: Diagnostic| ranked(d))
                    =~= compiler_messages(prev).map_values(|d: Diagnostic| ranked(d)).push(
                    ranked(d),
                ));
            },
            _ => {},
        }
    }
}

/// Ranks the compiler messages of all that `cargo build` wrote, in order,
/// and passes over every other message.
pub fn rank_messages(msgs: Vec<StreamMessage>) -> (res: Vec<RankedDiagnostic>)
    ensures
        res@ == ranked_messages(msgs@),
{
    let ghost orig = msgs@;
    let mut rest = msgs;
    let mut res: Vec<RankedDiagnostic> = Vec::new();
    let ghost mut i: int = 0;
    while rest.len() > 0
        invariant
            0 <= i <= orig.len(),
            rest@ == orig.skip(i),
            res@ == ranked_messages(orig.take(i)),
        decreases rest.len(),
    {
        let msg = rest.remove(0);
        proof {
            assert(msg == orig[i]);
            assert(orig.take(i + 1).drop_last() =~= orig.take(i));
            assert(orig.take(i + 1).last() == orig[i]);
            assert(rest@ =~= orig.skip(i + 1));
            i = i + 1;
        }
        match msg {
            StreamMessage::CompilerMessage(good_msg) => res.push(RankedDiagnostic::from(good_msg)),
            _ => {},
        }
    }
    proof {
        assert(orig.take(i) =~= orig);
    }
    res
}

} // verus!
