//! The host object that owns the application side of one native window.
//!
//! A host is allocated before the native window exists, with its handle set
//! to an invalid sentinel. The creation call lends the host's address to the
//! window system; during creation the system synchronously hands that address
//! back through the router, which writes the freshly issued native handle
//! into the host. The handle is written exactly once and never reassigned.

use crate::messages::CLOSE_NOTICE;
use vstd::prelude::*;

verus! {

/// The sentinel a host's handle holds before creation completes. The
/// platform never issues it for a real window.
pub const INVALID_HANDLE: usize = 0;

/// What a host's handler decided for one message forwarded to it.
#[derive(Clone, Copy, Debug, PartialEq, Eq, Structural)]
pub enum HandlerAction {
    /// The close notice arrived: post exactly one termination signal to the
    /// calling thread's queue and answer zero.
    PostTermination,
    /// Any other message: hand it, unchanged, to the platform default
    /// handler and pass its answer through.
    ForwardDefault { code: u32, wparam: usize, lparam: usize },
}

/// The host handler as a pure function of the message: the close notice
/// posts the termination signal; everything else goes to the platform
/// default handler with its parameters untouched.
pub open spec fn handler_decision(code: u32, wparam: usize, lparam: usize) -> HandlerAction {
    if code == CLOSE_NOTICE {
        HandlerAction::PostTermination
    } else {
        HandlerAction::ForwardDefault { code, wparam, lparam }
    }
}

/// The machine word the router answers for the message: zero for the close
/// notice, otherwise whatever the platform default handler returned.
pub open spec fn handler_result_spec(act: HandlerAction, default_result: usize) -> usize {
    match act {
        HandlerAction::PostTermination => 0,
        HandlerAction::ForwardDefault { .. } => default_result,
    }
}

/// One application window: the logical binding between an application object
/// and one native window. The window system owns the window itself; the host
/// only references it through the handle.
pub struct BasicWindow {
    window_handle: usize,
    pub class_name: String,
    pub title: String,
    pub width: u32,
    pub height: u32,
}

impl BasicWindow {
    /// The native handle currently recorded in the host.
    pub closed spec fn spec_handle(&self) -> usize {
        self.window_handle
    }

    /// The window class name the host was created with.
    pub closed spec fn spec_class_name(&self) -> Seq<char> {
        self.class_name@
    }

    /// The window title the host was created with.
    pub closed spec fn spec_title(&self) -> Seq<char> {
        self.title@
    }

    /// The requested width.
    pub closed spec fn spec_width(&self) -> u32 {
        self.width
    }

    /// The requested height.
    pub closed spec fn spec_height(&self) -> u32 {
        self.height
    }

    /// Whether creation has completed: the handle is a real one, not the
    /// sentinel.
    pub open spec fn is_bound(&self) -> bool {
        self.spec_handle() != INVALID_HANDLE
    }

    /// Allocates the host for a window not yet created: the handle starts as
    /// the invalid sentinel and the requested geometry and names are kept.
    pub fn new(width: u32, height: u32, class_name: &str, title: &str) -> (host: BasicWindow)
        ensures
            !host.is_bound(),
            host.spec_handle() == INVALID_HANDLE,
            host.spec_width() == width,
            host.spec_height() == height,
            host.spec_class_name() == class_name@,
            host.spec_title() == title@,
    {
        BasicWindow {
            window_handle: INVALID_HANDLE,
            class_name: class_name.to_owned(),
            title: title.to_owned(),
            width,
            height,
        }
    }

    /// Records the native handle the window system issued, during the
    /// creation notice. Admitted only while the host is unbound, so the
    /// handle is assigned exactly once; everything else is untouched.
    pub fn bind_handle(&mut self, handle: usize)
        requires
            !old(self).is_bound(),
            handle != INVALID_HANDLE,
        ensures
            final(self).spec_handle() == handle,
            final(self).is_bound(),
            final(self).spec_class_name() == old(self).spec_class_name(),
            final(self).spec_title() == old(self).spec_title(),
            final(self).spec_width() == old(self).spec_width(),
            final(self).spec_height() == old(self).spec_height(),
    {
        self.window_handle = handle;
    }

    /// Whether creation completed with a real handle. A caller checks this
    /// when the creation call returns; a sentinel there is a fatal startup
    /// error.
    pub fn creation_complete(&self) -> (r: bool)
        ensures
            r == self.is_bound(),
    {
        self.window_handle != INVALID_HANDLE
    }

    /// The native handle. Meaningful only once creation has completed.
    pub fn handle(&self) -> (h: usize)
        requires
            self.is_bound(),
        ensures
            h == self.spec_handle(),
            h != INVALID_HANDLE,
    {
        self.window_handle
    }

    /// Decides what to do with one message forwarded to this host. Pure: the
    /// decision depends on the message alone.
    pub fn message_handler(&self, code: u32, wparam: usize, lparam: usize) -> (act: HandlerAction)
        ensures
            act == handler_decision(code, wparam, lparam),
    {
        if code == CLOSE_NOTICE {
            HandlerAction::PostTermination
        } else {
            HandlerAction::ForwardDefault { code, wparam, lparam }
        }
    }
}

/// Resolves the handler's decision to the word answered for the message,
/// given what the platform default handler returned where one was consulted:
/// zero for the close notice, the default handler's answer passed through
/// unmodified for everything else.
pub fn handler_result(act: HandlerAction, default_result: usize) -> (r: usize)
    ensures
        r == handler_result_spec(act, default_result),
{
    match act {
        HandlerAction::PostTermination => 0,
        HandlerAction::ForwardDefault { .. } => default_result,
    }
}

/// A bind is admitted only on a host whose handle is still the sentinel, and
/// it must install a real handle.
pub open spec fn bind_enabled(current: usize, handle: usize) -> bool {
    current == INVALID_HANDLE && handle != INVALID_HANDLE
}

/// A sequence of handle writes each of which was admitted in the state left
/// by the previous one.
pub open spec fn binds_admitted(current: usize, writes: Seq<usize>) -> bool
    decreases writes.len(),
{
    writes.len() == 0 || {
        &&& bind_enabled(current, writes.first())
        &&& binds_admitted(writes.first(), writes.drop_first())
    }
}

/// The handle left after a sequence of admitted writes.
pub open spec fn handle_after(current: usize, writes: Seq<usize>) -> usize
    decreases writes.len(),
{
    if writes.len() == 0 {
        current
    } else {
        handle_after(writes.first(), writes.drop_first())
    }
}

/// The handle is set exactly once. Starting from a fresh host, at most one
/// handle write is ever admitted; if one happens, the handle is that write's
/// valid, non-sentinel value from then on, and it is never reassigned.
pub proof fn lemma_handle_set_exactly_once(writes: Seq<usize>)
    requires
        binds_admitted(INVALID_HANDLE, writes),
    ensures
        writes.len() <= 1,
        writes.len() == 1 ==> handle_after(INVALID_HANDLE, writes) == writes.first()
            && writes.first() != INVALID_HANDLE,
        writes.len() == 0 ==> handle_after(INVALID_HANDLE, writes) == INVALID_HANDLE,
{
    if writes.len() >= 1 {
        assert(binds_admitted(writes.first(), writes.drop_first()));
        if writes.len() >= 2 {
            assert(bind_enabled(writes.first(), writes.drop_first().first()));
            assert(false);
        }
        assert(writes.drop_first().len() == 0);
        assert(handle_after(INVALID_HANDLE, writes) == handle_after(
            writes.first(),
            writes.drop_first(),
        ));
    }
}

} // verus!
