use vstd::prelude::*;

use crate::message::{Diagnostic, StreamMessage};

verus! {

/// What taking in `msg` does to the diagnostics gathered so far, `acc`:
/// whether to read on, and the diagnostics gathered then.
pub open spec fn fetch_after(acc: Seq<Diagnostic>, msg: StreamMessage) -> (bool, Seq<Diagnostic>) {
    match msg {
        StreamMessage::CompilerMessage(d) => (true, acc.push(d)),
        StreamMessage::BuildFinished => (false, acc),
        StreamMessage::Other => (true, acc),
    }
}

/// Reading `msgs` one after the other from nothing, until a step says to
/// stop: whether reading would go on, and the diagnostics gathered.
pub open spec fn read_stream(msgs: Seq<StreamMessage>) -> (bool, Seq<Diagnostic>)
    decreases msgs.len(),
{
    if msgs.len() == 0 {
        (true, Seq::empty())
    } else {
        let prev = read_stream(msgs.drop_last());
        if prev.0 {
            fetch_after(prev.1, msgs.last())
        } else {
            prev
        }
    }
}

/// The compiler messages of `msgs` that come before its first end of build.
pub open spec fn before_build_end(msgs: Seq<StreamMessage>) -> Seq<Diagnostic>
    decreases msgs.len(),
{
    if msgs.len() == 0 {
        Seq::empty()
    } else {
        match msgs[0] {
            StreamMessage::BuildFinished => Seq::empty(),
            StreamMessage::CompilerMessage(d) => seq![d] + before_build_end(msgs.skip(1)),
            StreamMessage::Other => before_build_end(msgs.skip(1)),
        }
    }
}

/// Whether `msgs` holds an end of build.
pub open spec fn has_build_end(msgs: Seq<StreamMessage>) -> bool {
    exists|i: int| 0 <= i < msgs.len() && #[trigger] msgs[i] == StreamMessage::BuildFinished
}

proof fn lemma_before_build_end_push(msgs: Seq<StreamMessage>, msg: StreamMessage)
    ensures
        before_build_end(msgs.push(msg)) == (if has_build_end(msgs) {
            before_build_end(msgs)
        } else {
            match msg {
                StreamMessage::CompilerMessage(d) => before_build_end(msgs).push(d),
                _ => before_build_end(msgs),
            }
        }),
    decreases msgs.len(),
{
    let pushed = msgs.push(msg);
    if msgs.len() == 0 {
        assert(pushed.skip(1) =~= Seq::<StreamMessage>::empty());
        assert(before_build_end(pushed.skip(1)) == Seq::<Diagnostic>::empty());
        assert(pushed[0] == msg);
        assert(!has_build_end(msgs));
        match msg {
            StreamMessage::CompilerMessage(d) => {
                assert(seq![d] + Seq::<Diagnostic>::empty() =~= Seq::<Diagnostic>::empty().push(d));
            },
            _ => {},
        }
    } else {
        let tail = msgs.skip(1);
        assert(pushed.skip(1) =~= tail.push(msg));
        assert(pushed[0] == msgs[0]);
        lemma_before_build_end_push(tail, msg);
        if msgs[0] == StreamMessage::BuildFinished {
            assert(has_build_end(msgs));
        } else {
            assert(has_build_end(msgs) == has_build_end(tail)) by {
                if has_build_end(msgs) {
                    let i = choose|i: int| 0 <= i < msgs.len() && #[trigger] msgs[i]
                        == StreamMessage::BuildFinished;
                    assert(tail[i - 1] == StreamMessage::BuildFinished);
                }
                if has_build_end(tail) {
                    let i = choose|i: int| 0 <= i < tail.len() && #[trigger] tail[i]
                        == StreamMessage::BuildFinished;
                    assert(msgs[i + 1] == StreamMessage::BuildFinished);
                }
            }
            match msgs[0] {
                StreamMessage::CompilerMessage(d0) => {
                    match msg {
                        StreamMessage::CompilerMessage(d) => {
                            if !has_build_end(tail) {
                                assert(seq![d0] + before_build_end(tail).push(d) =~= (seq![d0]
                                    + before_build_end(tail)).push(d));
                            }
                        },
                        _ => {},
                    }
                },
                _ => {},
            }
        }
    }
}

/// Reading a stream step by step gathers the compiler messages that come
/// before the end of the build, and goes on reading exactly while no end of
/// build has come.
pub proof fn lemma_read_stream_stops_at_build_end(msgs: Seq<StreamMessage>)
    ensures
        read_stream(msgs) == (!has_build_end(msgs), before_build_end(msgs)),
    decreases msgs.len(),
{
    if msgs.len() > 0 {
        let prev = msgs.drop_last();
        lemma_read_stream_stops_at_build_end(prev);
        lemma_before_build_end_push(prev, msgs.last());
        assert(msgs =~= prev.push(msgs.last()));
        assert(has_build_end(msgs) == (has_build_end(prev) || msgs.last()
            == StreamMessage::BuildFinished)) by {
            if has_build_end(msgs) {
                let i = choose|i: int| 0 <= i < msgs.len() && #[trigger] msgs[i]
                    == StreamMessage::BuildFinished;
                if i < prev.len() {
                    assert(prev[i] == StreamMessage::BuildFinished);
                }
            }
            if has_build_end(prev) {
                let i = choose|i: int| 0 <= i < prev.len() && #[trigger] prev[i]
                    == StreamMessage::BuildFinished;
                assert(msgs[i] == StreamMessage::BuildFinished);
            }
            if msgs.last() == StreamMessage::BuildFinished {
                assert(msgs[msgs.len() - 1] == StreamMessage::BuildFinished);
            }
        }
    } else {
        assert(!has_build_end(msgs));
    }
}

/// Runs `cargo check` and gathers the diagnostics it reports.
pub struct CargoActor;

impl CargoActor {
    /// Takes in the next message that `cargo check` wrote: a compiler
    /// message is kept in `res`, the end of the build stops the reading, any
    /// other message is passed over. Tells whether to read on.
    pub fn fetch_step(res: &mut Vec<Diagnostic>, msg: StreamMessage) -> (read_on: bool)
        ensures
            (read_on, final(res)@) == fetch_after(old(res)@, msg),
    {
        match msg {
            StreamMessage::CompilerMessage(good_msg) => {
                res.push(good_msg);
                true
            },
            StreamMessage::BuildFinished => false,
            StreamMessage::Other => true,
        }
    }
}

} // verus!
