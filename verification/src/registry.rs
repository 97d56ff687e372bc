//! One-time registration of the native window class.
//!
//! A window class is registered with the window system exactly once per
//! process, however many threads race to create the first window. The
//! registry is the guarded flag behind that guarantee: the first caller is
//! admitted to run the registration body; callers arriving while it runs
//! block until it completes; callers arriving afterwards observe the finished
//! registration and do no redundant work. A failed registration is fatal —
//! no window of the class can be created, so startup aborts.

use vstd::prelude::*;

verus! {

/// Where the process stands with the one-time registration.
#[derive(Clone, Copy, Debug, PartialEq, Eq, Structural)]
pub enum RegistrationState {
    /// Nobody has attempted the registration yet.
    Vacant,
    /// One caller is running the registration body; others wait.
    InProgress,
    /// The body completed successfully; the class exists for the rest of the
    /// process lifetime (there is no teardown).
    Registered,
    /// The body failed (a name collision with a different callback, or a
    /// platform error): fatal, startup aborts.
    Failed,
}

/// What one caller is told when it asks for the class.
#[derive(Clone, Copy, Debug, PartialEq, Eq, Structural)]
pub enum Admission {
    /// This caller performs the registration body, exactly once per process.
    RunBody,
    /// Another caller is registering right now: block until it completes,
    /// then proceed without re-registering.
    AwaitCompletion,
    /// The class is already registered: proceed, nothing to do.
    AlreadyDone,
    /// Registration failed earlier: fatal, no window of the class can be
    /// created.
    Fatal,
}

/// The state after one caller has asked: only the very first request leaves
/// `Vacant`, and nothing else moves the state.
pub open spec fn admit_step(s: RegistrationState) -> RegistrationState {
    match s {
        RegistrationState::Vacant => RegistrationState::InProgress,
        _ => s,
    }
}

/// What the caller asking in state `s` is told.
pub open spec fn admit_decision(s: RegistrationState) -> Admission {
    match s {
        RegistrationState::Vacant => Admission::RunBody,
        RegistrationState::InProgress => Admission::AwaitCompletion,
        RegistrationState::Registered => Admission::AlreadyDone,
        RegistrationState::Failed => Admission::Fatal,
    }
}

/// The process-wide registration guard for one window class, keyed by the
/// class name every window instance sharing the routing callback reuses.
pub struct ClassRegistry {
    state: RegistrationState,
    class_name: String,
}

impl ClassRegistry {
    /// The current state.
    pub closed spec fn spec_state(&self) -> RegistrationState {
        self.state
    }

    /// The class name the registry guards.
    pub closed spec fn spec_class_name(&self) -> Seq<char> {
        self.class_name@
    }

    /// A fresh process: nothing registered for the class.
    pub fn new(class_name: &str) -> (r: ClassRegistry)
        ensures
            r.spec_state() == RegistrationState::Vacant,
            r.spec_class_name() == class_name@,
    {
        ClassRegistry { state: RegistrationState::Vacant, class_name: class_name.to_owned() }
    }

    /// One caller asks for the class. Exactly the first caller is admitted to
    /// run the registration body; everyone else is told to wait, to proceed,
    /// or that startup already failed — and leaves the state untouched.
    pub fn begin_registration(&mut self) -> (a: Admission)
        ensures
            final(self).spec_state() == admit_step(old(self).spec_state()),
            final(self).spec_class_name() == old(self).spec_class_name(),
            a == admit_decision(old(self).spec_state()),
    {
        match self.state {
            RegistrationState::Vacant => {
                self.state = RegistrationState::InProgress;
                Admission::RunBody
            },
            RegistrationState::InProgress => Admission::AwaitCompletion,
            RegistrationState::Registered => Admission::AlreadyDone,
            RegistrationState::Failed => Admission::Fatal,
        }
    }

    /// The admitted caller reports how the registration body ended. Success
    /// makes the class available for the rest of the process; failure is
    /// fatal.
    pub fn finish_registration(&mut self, succeeded: bool)
        requires
            old(self).spec_state() == RegistrationState::InProgress,
        ensures
            succeeded ==> final(self).spec_state() == RegistrationState::Registered,
            !succeeded ==> final(self).spec_state() == RegistrationState::Failed,
            final(self).spec_class_name() == old(self).spec_class_name(),
    {
        if succeeded {
            self.state = RegistrationState::Registered;
        } else {
            self.state = RegistrationState::Failed;
        }
    }
}

/// One event the registry sees: a caller asking, or the admitted caller
/// reporting the body's outcome.
#[derive(Clone, Copy, Debug, PartialEq, Eq, Structural)]
pub enum RegistryEvent {
    Begin,
    Finish { succeeded: bool },
}

/// The state after one event.
pub open spec fn registry_step(s: RegistrationState, e: RegistryEvent) -> RegistrationState {
    match e {
        RegistryEvent::Begin => admit_step(s),
        RegistryEvent::Finish { succeeded } => if succeeded {
            RegistrationState::Registered
        } else {
            RegistrationState::Failed
        },
    }
}

/// A trace is valid when each finish event is reported by the one admitted
/// caller, that is, while the body is in progress — the shape every real
/// interleaving of concurrent first callers has.
pub open spec fn valid_trace(s: RegistrationState, events: Seq<RegistryEvent>) -> bool
    decreases events.len(),
{
    events.len() == 0 || {
        &&& (events.first() is Finish ==> s == RegistrationState::InProgress)
        &&& valid_trace(registry_step(s, events.first()), events.drop_first())
    }
}

/// The state after a whole trace.
pub open spec fn run_registry(s: RegistrationState, events: Seq<RegistryEvent>) -> RegistrationState
    decreases events.len(),
{
    if events.len() == 0 {
        s
    } else {
        run_registry(registry_step(s, events.first()), events.drop_first())
    }
}

/// How many callers in the trace were admitted to run the registration body.
pub open spec fn body_runs(s: RegistrationState, events: Seq<RegistryEvent>) -> nat
    decreases events.len(),
{
    if events.len() == 0 {
        0
    } else {
        (if events.first() is Begin && admit_decision(s) is RunBody {
            1 as nat
        } else {
            0 as nat
        }) + body_runs(registry_step(s, events.first()), events.drop_first())
    }
}

/// Once the registration has been claimed, nobody is ever admitted to run
/// the body again: every state but `Vacant` admits nobody and never returns
/// to `Vacant`.
pub proof fn lemma_no_second_run(s: RegistrationState, events: Seq<RegistryEvent>)
    requires
        s != RegistrationState::Vacant,
    ensures
        body_runs(s, events) == 0,
        run_registry(s, events) != RegistrationState::Vacant,
    decreases events.len(),
{
    if events.len() > 0 {
        lemma_no_second_run(registry_step(s, events.first()), events.drop_first());
    }
}

/// The registration body executes exactly once: across any number of
/// concurrent attempts — any valid interleaving of callers asking and the
/// admitted caller finishing, with at least one attempt — exactly one caller
/// is admitted to run the body.
pub proof fn lemma_registration_body_runs_exactly_once(events: Seq<RegistryEvent>)
    requires
        valid_trace(RegistrationState::Vacant, events),
        events.len() >= 1,
    ensures
        body_runs(RegistrationState::Vacant, events) == 1,
{
    assert(events.first() is Begin);
    assert(registry_step(RegistrationState::Vacant, events.first())
        == RegistrationState::InProgress);
    lemma_no_second_run(RegistrationState::InProgress, events.drop_first());
}

} // verus!
