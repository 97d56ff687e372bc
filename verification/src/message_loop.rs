//! The message loop: pull messages for the calling thread and forward them
//! until the termination signal arrives.
//!
//! The loop has no timeout and no external cancellation: the only way it ends
//! is that a bound window's handler observed the close notice and posted the
//! termination signal, which the loop then pulls. Every ordinary message is
//! dispatched through the platform's routing mechanism, which re-enters the
//! message router.

use crate::messages::{WindowMessage, TERMINATION_SIGNAL};
use vstd::prelude::*;

verus! {

/// What the loop does with one pulled message.
#[derive(Clone, Copy, Debug, PartialEq, Eq, Structural)]
pub enum LoopStep {
    /// An ordinary message: dispatch it through the platform's routing
    /// mechanism and keep pulling.
    Dispatch { message: WindowMessage },
    /// The termination signal: the loop ends.
    Stop,
}

/// The loop's decision for one pulled message.
pub open spec fn loop_decision(m: WindowMessage) -> LoopStep {
    if m.code == TERMINATION_SIGNAL {
        LoopStep::Stop
    } else {
        LoopStep::Dispatch { message: m }
    }
}

/// Decides what to do with one pulled message: stop on the termination
/// signal, dispatch anything else unchanged.
pub fn classify_pulled(m: WindowMessage) -> (s: LoopStep)
    ensures
        s == loop_decision(m),
{
    if m.code == TERMINATION_SIGNAL {
        LoopStep::Stop
    } else {
        LoopStep::Dispatch { message: m }
    }
}

/// The messages the loop dispatches out of a queue: exactly those before the
/// first termination signal, in order.
pub open spec fn dispatch_prefix(msgs: Seq<WindowMessage>) -> Seq<WindowMessage>
    decreases msgs.len(),
{
    if msgs.len() == 0 {
        Seq::empty()
    } else if msgs.first().code == TERMINATION_SIGNAL {
        Seq::empty()
    } else {
        seq![msgs.first()] + dispatch_prefix(msgs.drop_first())
    }
}

/// Whether the queue holds a termination signal anywhere.
pub open spec fn holds_termination(msgs: Seq<WindowMessage>) -> bool {
    exists|i: int| 0 <= i < msgs.len() && msgs[i].code == TERMINATION_SIGNAL
}

/// When nothing before position `i` is the termination signal and position
/// `i` (if inside the queue) is one, the dispatched messages are exactly the
/// queue up to `i`.
proof fn lemma_dispatch_prefix_is_subrange(msgs: Seq<WindowMessage>, i: int)
    requires
        0 <= i <= msgs.len(),
        forall|j: int| 0 <= j < i ==> msgs[j].code != TERMINATION_SIGNAL,
        i < msgs.len() ==> msgs[i].code == TERMINATION_SIGNAL,
    ensures
        dispatch_prefix(msgs) =~= msgs.subrange(0, i),
    decreases msgs.len(),
{
    if msgs.len() > 0 {
        if i == 0 {
        } else {
            lemma_dispatch_prefix_is_subrange(msgs.drop_first(), i - 1);
            assert(dispatch_prefix(msgs) =~= seq![msgs.first()] + msgs.drop_first().subrange(
                0,
                i - 1,
            ));
        }
    }
}

/// Pumps the queue: dispatches every message before the first termination
/// signal, in order, and reports whether the signal was observed — observing
/// it is the only way the loop ends.
pub fn pump(msgs: &Vec<WindowMessage>) -> (r: (Vec<WindowMessage>, bool))
    ensures
        r.0@ == dispatch_prefix(msgs@),
        r.1 == holds_termination(msgs@),
{
    let n = msgs.len();
    let mut dispatched: Vec<WindowMessage> = Vec::new();
    let mut i: usize = 0;
    while i < n
        invariant
            i <= n,
            n == msgs@.len(),
            dispatched@ == msgs@.subrange(0, i as int),
            forall|j: int| 0 <= j < i ==> msgs@[j].code != TERMINATION_SIGNAL,
        decreases n - i,
    {
        let m = msgs[i];
        match classify_pulled(m) {
            LoopStep::Stop => {
                proof {
                    lemma_dispatch_prefix_is_subrange(msgs@, i as int);
                }
                return (dispatched, true);
            },
            LoopStep::Dispatch { message } => {
                dispatched.push(message);
                proof {
                    assert(dispatched@ =~= msgs@.subrange(0, i + 1));
                }
            },
        }
        i = i + 1;
    }
    proof {
        lemma_dispatch_prefix_is_subrange(msgs@, n as int);
        assert(dispatched@ =~= msgs@.subrange(0, n as int));
    }
    (dispatched, false)
}

} // verus!
