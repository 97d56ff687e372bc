//! The message router: the callback the window system invokes for every
//! message sent to a window of the registered class.
//!
//! Per window the router is a two-state machine. A window starts unbound; the
//! creation notice carries the host address the creating caller lent to the
//! window system, and the router stores it in the per-window side table —
//! the one transition, taken exactly once and never reversed. From then on
//! every message to that window recovers the stored address and is forwarded
//! to the host there; messages to a window that is not yet bound (the
//! platform may deliver a few before the creation notice) fall through to the
//! platform default handler.

use crate::messages::{WindowMessage, CREATE_NOTICE};
use crate::side_table::SideTable;
use vstd::prelude::*;

verus! {

/// What the router decided for one delivered message.
#[derive(Clone, Copy, Debug, PartialEq, Eq, Structural)]
pub enum RouteAction {
    /// Creation notice: the host address from the payload is now bound to
    /// the window. The embedder writes the issued native handle into the
    /// host at that address and then lets default handling finish the
    /// message.
    Bind { host_addr: usize },
    /// The window is bound: forward the message, unchanged, to the host
    /// recovered at `host_addr` and answer whatever its handler answers.
    Deliver { host_addr: usize, code: u32, wparam: usize, lparam: usize },
    /// Not yet bound and not the creation notice: platform default handling
    /// only.
    DefaultOnly { code: u32, wparam: usize, lparam: usize },
}

/// The binding table after the router has seen one message.
pub open spec fn route_step(bound: Map<usize, usize>, m: WindowMessage) -> Map<usize, usize> {
    if m.code == CREATE_NOTICE {
        bound.insert(m.window, m.lparam)
    } else {
        bound
    }
}

/// The router's decision for one message, given the current binding table.
pub open spec fn route_decision(bound: Map<usize, usize>, m: WindowMessage) -> RouteAction {
    if m.code == CREATE_NOTICE {
        RouteAction::Bind { host_addr: m.lparam }
    } else if bound.dom().contains(m.window) {
        RouteAction::Deliver {
            host_addr: bound[m.window],
            code: m.code,
            wparam: m.wparam,
            lparam: m.lparam,
        }
    } else {
        RouteAction::DefaultOnly { code: m.code, wparam: m.wparam, lparam: m.lparam }
    }
}

/// The router. It owns nothing but the per-window binding table.
pub struct MessageRouter {
    bindings: SideTable,
}

impl View for MessageRouter {
    type V = Map<usize, usize>;

    /// Which windows are bound, and to which host address.
    closed spec fn view(&self) -> Map<usize, usize> {
        self.bindings@
    }
}

impl MessageRouter {
    /// Internal invariant of the binding table.
    pub closed spec fn wf(&self) -> bool {
        self.bindings.wf()
    }

    /// A fresh router: no window is bound.
    pub fn new() -> (r: MessageRouter)
        ensures
            r.wf(),
            r@ == Map::<usize, usize>::empty(),
    {
        MessageRouter { bindings: SideTable::new() }
    }

    /// Routes one message. The creation notice binds the window to the host
    /// address in the payload — the platform delivers it once per window,
    /// before any bind, so the window is unbound then; no other message
    /// changes the table.
    pub fn route(&mut self, m: WindowMessage) -> (act: RouteAction)
        requires
            old(self).wf(),
            m.code == CREATE_NOTICE ==> !old(self)@.dom().contains(m.window),
        ensures
            final(self).wf(),
            final(self)@ == route_step(old(self)@, m),
            act == route_decision(old(self)@, m),
    {
        if m.code == CREATE_NOTICE {
            self.bindings.insert(m.window, m.lparam);
            RouteAction::Bind { host_addr: m.lparam }
        } else {
            match self.bindings.get(m.window) {
                Some(host_addr) => RouteAction::Deliver {
                    host_addr,
                    code: m.code,
                    wparam: m.wparam,
                    lparam: m.lparam,
                },
                None => RouteAction::DefaultOnly {
                    code: m.code,
                    wparam: m.wparam,
                    lparam: m.lparam,
                },
            }
        }
    }

    /// Whether the window has been bound to a host address.
    pub fn is_bound(&self, window: usize) -> (r: bool)
        requires
            self.wf(),
        ensures
            r == self@.dom().contains(window),
    {
        self.bindings.contains(window)
    }
}

/// Every creation notice in the trace targets a window that is unbound at
/// that point — the platform delivers it exactly once per window, before the
/// window could have been bound.
pub open spec fn creation_notices_fresh(bound: Map<usize, usize>, msgs: Seq<WindowMessage>) -> bool
    decreases msgs.len(),
{
    msgs.len() == 0 || {
        &&& (msgs.first().code == CREATE_NOTICE ==> !bound.dom().contains(msgs.first().window))
        &&& creation_notices_fresh(route_step(bound, msgs.first()), msgs.drop_first())
    }
}

/// The binding table after the router has seen a whole trace of messages.
pub open spec fn route_trace(bound: Map<usize, usize>, msgs: Seq<WindowMessage>) -> Map<
    usize,
    usize,
>
    decreases msgs.len(),
{
    if msgs.len() == 0 {
        bound
    } else {
        route_trace(route_step(bound, msgs.first()), msgs.drop_first())
    }
}

/// The router's decisions along a whole trace of messages, in order.
pub open spec fn decisions_trace(bound: Map<usize, usize>, msgs: Seq<WindowMessage>) -> Seq<
    RouteAction,
>
    decreases msgs.len(),
{
    if msgs.len() == 0 {
        Seq::empty()
    } else {
        seq![route_decision(bound, msgs.first())] + decisions_trace(
            route_step(bound, msgs.first()),
            msgs.drop_first(),
        )
    }
}

impl MessageRouter {
    /// Routes a whole trace of messages, as the platform's dispatch calls
    /// re-enter the router one message at a time, and returns the decision
    /// made for each.
    pub fn route_all(&mut self, msgs: &Vec<WindowMessage>) -> (acts: Vec<RouteAction>)
        requires
            old(self).wf(),
            creation_notices_fresh(old(self)@, msgs@),
        ensures
            final(self).wf(),
            final(self)@ == route_trace(old(self)@, msgs@),
            acts@ == decisions_trace(old(self)@, msgs@),
    {
        let ghost init = self@;
        let n = msgs.len();
        let mut acts: Vec<RouteAction> = Vec::new();
        proof {
            assert(msgs@.skip(0) =~= msgs@);
        }
        let mut i: usize = 0;
        while i < n
            invariant
                i <= n,
                n == msgs@.len(),
                self.wf(),
                creation_notices_fresh(self@, msgs@.skip(i as int)),
                route_trace(init, msgs@) == route_trace(self@, msgs@.skip(i as int)),
                decisions_trace(init, msgs@) =~= acts@ + decisions_trace(
                    self@,
                    msgs@.skip(i as int),
                ),
            decreases n - i,
        {
            let ghost pending = msgs@.skip(i as int);
            proof {
                assert(pending.first() == msgs@[i as int]);
                assert(pending.drop_first() =~= msgs@.skip(i + 1));
            }
            let act = self.route(msgs[i]);
            acts.push(act);
            i = i + 1;
        }
        proof {
            assert(msgs@.skip(n as int) =~= Seq::<WindowMessage>::empty());
            assert(acts@ =~= acts@ + decisions_trace(self@, msgs@.skip(n as int)));
        }
        acts
    }
}

/// Pointer round-trip stability: once a window is bound to the host address
/// given at creation, it stays bound to exactly that address through any
/// further traffic — the bind is terminal, no window returns to unbound.
pub proof fn lemma_bound_address_stable(
    bound: Map<usize, usize>,
    msgs: Seq<WindowMessage>,
    window: usize,
)
    requires
        creation_notices_fresh(bound, msgs),
        bound.dom().contains(window),
    ensures
        route_trace(bound, msgs).dom().contains(window),
        route_trace(bound, msgs)[window] == bound[window],
    decreases msgs.len(),
{
    if msgs.len() > 0 {
        lemma_bound_address_stable(route_step(bound, msgs.first()), msgs.drop_first(), window);
    }
}

/// Every message delivered after the bind recovers exactly the address the
/// creation notice carried, and hands the host the message's code and
/// parameters unchanged.
pub proof fn lemma_delivery_recovers_creation_address(
    bound: Map<usize, usize>,
    msgs: Seq<WindowMessage>,
    m: WindowMessage,
    addr: usize,
)
    requires
        creation_notices_fresh(bound, msgs),
        bound.dom().contains(m.window),
        bound[m.window] == addr,
        m.code != CREATE_NOTICE,
    ensures
        route_decision(route_trace(bound, msgs), m) == (RouteAction::Deliver {
            host_addr: addr,
            code: m.code,
            wparam: m.wparam,
            lparam: m.lparam,
        }),
{
    lemma_bound_address_stable(bound, msgs, m.window);
}

} // verus!
