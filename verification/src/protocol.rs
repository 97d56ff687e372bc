//! The window bridge as a whole: how the creation handshake, the router and
//! the host handler compose.
//!
//! The router recovers the bound host for every delivered message and the
//! host decides; this module states what the composed pass over one message
//! amounts to — exactly one termination-signal post and a zero response for
//! the close notice, exactly one pass-through to the platform default
//! handler for everything else — and performs the application side of the
//! creation handshake in one verified step.

use crate::message_loop::{dispatch_prefix, holds_termination, pump};
use crate::messages::{WindowMessage, CLOSE_NOTICE, CREATE_NOTICE};
use crate::router::{
    creation_notices_fresh, decisions_trace, route_decision, route_trace, MessageRouter,
    RouteAction,
};
use crate::window::{handler_decision, handler_result_spec, BasicWindow, HandlerAction, INVALID_HANDLE};
use vstd::prelude::*;

verus! {

/// How many termination signals one handler decision posts.
pub open spec fn termination_posts(act: HandlerAction) -> nat {
    match act {
        HandlerAction::PostTermination => 1,
        HandlerAction::ForwardDefault { .. } => 0,
    }
}

/// How many calls to the platform default handler one handler decision makes.
pub open spec fn default_forwards(act: HandlerAction) -> nat {
    match act {
        HandlerAction::PostTermination => 0,
        HandlerAction::ForwardDefault { .. } => 1,
    }
}

/// Delivering the close notice to a bound window produces exactly one
/// termination-signal post, no call to the default handler, and a zero
/// response.
pub proof fn lemma_close_notice_terminates(
    bound: Map<usize, usize>,
    m: WindowMessage,
    default_result: usize,
)
    requires
        bound.dom().contains(m.window),
        m.code == CLOSE_NOTICE,
    ensures
        route_decision(bound, m) == (RouteAction::Deliver {
            host_addr: bound[m.window],
            code: m.code,
            wparam: m.wparam,
            lparam: m.lparam,
        }),
        termination_posts(handler_decision(m.code, m.wparam, m.lparam)) == 1,
        default_forwards(handler_decision(m.code, m.wparam, m.lparam)) == 0,
        handler_result_spec(handler_decision(m.code, m.wparam, m.lparam), default_result) == 0,
{
}

/// Delivering any other message code to a bound window produces no
/// termination-signal post and exactly one forwarding call to the platform
/// default handler, with the message's code and parameters unchanged and the
/// default handler's return value passed through unmodified.
pub proof fn lemma_other_message_passes_through(
    bound: Map<usize, usize>,
    m: WindowMessage,
    default_result: usize,
)
    requires
        bound.dom().contains(m.window),
        m.code != CLOSE_NOTICE,
        m.code != CREATE_NOTICE,
    ensures
        route_decision(bound, m) == (RouteAction::Deliver {
            host_addr: bound[m.window],
            code: m.code,
            wparam: m.wparam,
            lparam: m.lparam,
        }),
        termination_posts(handler_decision(m.code, m.wparam, m.lparam)) == 0,
        default_forwards(handler_decision(m.code, m.wparam, m.lparam)) == 1,
        handler_decision(m.code, m.wparam, m.lparam) == (HandlerAction::ForwardDefault {
            code: m.code,
            wparam: m.wparam,
            lparam: m.lparam,
        }),
        handler_result_spec(handler_decision(m.code, m.wparam, m.lparam), default_result)
            == default_result,
{
}

/// The application side of the creation handshake, run when the window
/// system synchronously delivers the creation notice for the freshly issued
/// window: the router binds the window to the host address the caller lent,
/// and the issued native handle is written into the still-unbound host —
/// its one handle write ever.
pub fn complete_creation(
    router: &mut MessageRouter,
    host: &mut BasicWindow,
    window: usize,
    host_addr: usize,
) -> (act: RouteAction)
    requires
        old(router).wf(),
        !old(router)@.dom().contains(window),
        !old(host).is_bound(),
        window != INVALID_HANDLE,
    ensures
        final(router).wf(),
        final(router)@ == old(router)@.insert(window, host_addr),
        act == (RouteAction::Bind { host_addr }),
        final(host).is_bound(),
        final(host).spec_handle() == window,
        final(host).spec_class_name() == old(host).spec_class_name(),
        final(host).spec_title() == old(host).spec_title(),
        final(host).spec_width() == old(host).spec_width(),
        final(host).spec_height() == old(host).spec_height(),
{
    let notice = WindowMessage { window, code: CREATE_NOTICE, wparam: 0, lparam: host_addr };
    let act = router.route(notice);
    host.bind_handle(window);
    act
}

/// The whole message loop of a session: pull messages from the queue until
/// the termination signal, dispatch every earlier one through the router, and
/// report the router's decision for each together with whether termination
/// was observed — the only way the loop ends.
pub fn run_message_loop(router: &mut MessageRouter, queue: &Vec<WindowMessage>) -> (r: (
    Vec<RouteAction>,
    bool,
))
    requires
        old(router).wf(),
        creation_notices_fresh(old(router)@, dispatch_prefix(queue@)),
    ensures
        final(router).wf(),
        final(router)@ == route_trace(old(router)@, dispatch_prefix(queue@)),
        r.0@ == decisions_trace(old(router)@, dispatch_prefix(queue@)),
        r.1 == holds_termination(queue@),
{
    let (dispatched, terminated) = pump(queue);
    let acts = router.route_all(&dispatched);
    (acts, terminated)
}

} // verus!
