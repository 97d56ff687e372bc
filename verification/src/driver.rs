//! The one retry policy among the collaborator calls: driver fallback for
//! device creation.
//!
//! Device creation is first attempted with the preferred hardware-accelerated
//! driver. If — and only if — that attempt fails with the "unsupported
//! configuration" status, creation is retried exactly once with the software
//! reference driver. Any other failure, and any failure of the retry, is
//! fatal and surfaces unchanged; there is no further retry and no degraded
//! mode. The embedder performs the actual creation calls and feeds each
//! attempt's status back into this state machine.

use vstd::prelude::*;

verus! {

/// The status a successful creation attempt reports.
pub const SUCCESS_STATUS: u32 = 0;

/// The one failure status that triggers the fallback: the preferred driver
/// does not support the requested configuration.
pub const UNSUPPORTED_CONFIGURATION: u32 = 0x887A_0004;

/// Which driver an attempt uses.
#[derive(Clone, Copy, Debug, PartialEq, Eq, Structural)]
pub enum DriverKind {
    /// The preferred hardware-accelerated driver.
    Hardware,
    /// The software reference driver used for the single fallback attempt.
    Software,
}

/// Where device selection stands.
#[derive(Clone, Copy, Debug, PartialEq, Eq, Structural)]
pub enum DeviceSelection {
    /// An attempt with `driver` is due; `fallback_used` says whether the one
    /// permitted fallback has already been taken.
    Attempting { driver: DriverKind, fallback_used: bool },
    /// An attempt succeeded: the device exists, made by `driver`.
    Selected { driver: DriverKind, fallback_used: bool },
    /// An attempt failed fatally; `status` is the failing status, unchanged.
    Failed { status: u32 },
}

/// The state after one attempt reports `status`: success selects the driver
/// of the attempt; an unsupported configuration on the hardware driver turns
/// into the single software fallback; everything else is fatal and keeps the
/// original status.
pub open spec fn selection_step(s: DeviceSelection, status: u32) -> DeviceSelection {
    match s {
        DeviceSelection::Attempting { driver, fallback_used } => {
            if status == SUCCESS_STATUS {
                DeviceSelection::Selected { driver, fallback_used }
            } else if driver is Hardware && status == UNSUPPORTED_CONFIGURATION {
                DeviceSelection::Attempting { driver: DriverKind::Software, fallback_used: true }
            } else {
                DeviceSelection::Failed { status }
            }
        },
        _ => s,
    }
}

/// Device selection starts with the preferred hardware driver and no
/// fallback taken.
pub fn start_selection() -> (s: DeviceSelection)
    ensures
        s == (DeviceSelection::Attempting { driver: DriverKind::Hardware, fallback_used: false }),
{
    DeviceSelection::Attempting { driver: DriverKind::Hardware, fallback_used: false }
}

/// Feeds one attempt's status into the selection.
pub fn on_attempt_result(s: DeviceSelection, status: u32) -> (n: DeviceSelection)
    requires
        s is Attempting,
    ensures
        n == selection_step(s, status),
{
    match s {
        DeviceSelection::Attempting { driver, fallback_used } => {
            if status == SUCCESS_STATUS {
                DeviceSelection::Selected { driver, fallback_used }
            } else if matches!(driver, DriverKind::Hardware) && status
                == UNSUPPORTED_CONFIGURATION {
                DeviceSelection::Attempting { driver: DriverKind::Software, fallback_used: true }
            } else {
                DeviceSelection::Failed { status }
            }
        },
        _ => s,
    }
}

/// The selection after a run of attempts whose statuses arrive in order;
/// statuses beyond the attempt that settled the selection are ignored.
pub open spec fn run_selection(s: DeviceSelection, statuses: Seq<u32>) -> DeviceSelection
    decreases statuses.len(),
{
    if statuses.len() == 0 || !(s is Attempting) {
        s
    } else {
        run_selection(selection_step(s, statuses.first()), statuses.drop_first())
    }
}

/// How many creation attempts a run performs.
pub open spec fn attempts_used(s: DeviceSelection, statuses: Seq<u32>) -> nat
    decreases statuses.len(),
{
    if statuses.len() == 0 || !(s is Attempting) {
        0
    } else {
        1 + attempts_used(selection_step(s, statuses.first()), statuses.drop_first())
    }
}

/// A settled selection (selected or failed) ignores whatever statuses still
/// arrive and performs no further attempt.
pub proof fn lemma_settled_selection_is_final(s: DeviceSelection, statuses: Seq<u32>)
    requires
        !(s is Attempting),
    ensures
        run_selection(s, statuses) == s,
        attempts_used(s, statuses) == 0,
{
}

/// The preferred driver failing with the unsupported-configuration status
/// causes exactly one fallback attempt, with the software driver; when that
/// attempt succeeds, the device is the software one, after exactly two
/// attempts.
pub proof fn lemma_unsupported_falls_back_once(rest: Seq<u32>)
    ensures
        run_selection(
            DeviceSelection::Attempting { driver: DriverKind::Hardware, fallback_used: false },
            seq![UNSUPPORTED_CONFIGURATION, SUCCESS_STATUS] + rest,
        ) == (DeviceSelection::Selected { driver: DriverKind::Software, fallback_used: true }),
        attempts_used(
            DeviceSelection::Attempting { driver: DriverKind::Hardware, fallback_used: false },
            seq![UNSUPPORTED_CONFIGURATION, SUCCESS_STATUS] + rest,
        ) == 2,
{
    let start = DeviceSelection::Attempting {
        driver: DriverKind::Hardware,
        fallback_used: false,
    };
    let statuses = seq![UNSUPPORTED_CONFIGURATION, SUCCESS_STATUS] + rest;
    let retry = DeviceSelection::Attempting { driver: DriverKind::Software, fallback_used: true };
    let selected = DeviceSelection::Selected { driver: DriverKind::Software, fallback_used: true };
    assert(statuses.first() == UNSUPPORTED_CONFIGURATION);
    assert(selection_step(start, UNSUPPORTED_CONFIGURATION) == retry);
    assert(run_selection(start, statuses) == run_selection(retry, statuses.drop_first()));
    assert(attempts_used(start, statuses) == 1 + attempts_used(retry, statuses.drop_first()));
    assert(statuses.drop_first().first() == SUCCESS_STATUS);
    assert(selection_step(retry, SUCCESS_STATUS) == selected);
    assert(run_selection(retry, statuses.drop_first()) == run_selection(
        selected,
        statuses.drop_first().drop_first(),
    ));
    assert(attempts_used(retry, statuses.drop_first()) == 1 + attempts_used(
        selected,
        statuses.drop_first().drop_first(),
    ));
    lemma_settled_selection_is_final(selected, statuses.drop_first().drop_first());
}

/// Any first failure other than the unsupported-configuration status causes
/// no fallback: the run stops after the one attempt and surfaces the original
/// status unchanged.
pub proof fn lemma_other_failure_surfaces_unchanged(status: u32, rest: Seq<u32>)
    requires
        status != SUCCESS_STATUS,
        status != UNSUPPORTED_CONFIGURATION,
    ensures
        run_selection(
            DeviceSelection::Attempting { driver: DriverKind::Hardware, fallback_used: false },
            seq![status] + rest,
        ) == (DeviceSelection::Failed { status }),
        attempts_used(
            DeviceSelection::Attempting { driver: DriverKind::Hardware, fallback_used: false },
            seq![status] + rest,
        ) == 1,
{
    let start = DeviceSelection::Attempting {
        driver: DriverKind::Hardware,
        fallback_used: false,
    };
    let statuses = seq![status] + rest;
    let failed = DeviceSelection::Failed { status };
    assert(statuses.first() == status);
    assert(selection_step(start, status) == failed);
    assert(run_selection(start, statuses) == run_selection(failed, statuses.drop_first()));
    assert(attempts_used(start, statuses) == 1 + attempts_used(failed, statuses.drop_first()));
    lemma_settled_selection_is_final(failed, statuses.drop_first());
}

/// A failure of the retry itself is fatal too: no third attempt exists, and
/// the retry's failing status surfaces unchanged.
pub proof fn lemma_failed_retry_is_fatal(status: u32, rest: Seq<u32>)
    requires
        status != SUCCESS_STATUS,
    ensures
        run_selection(
            DeviceSelection::Attempting { driver: DriverKind::Software, fallback_used: true },
            seq![status] + rest,
        ) == (DeviceSelection::Failed { status }),
        attempts_used(
            DeviceSelection::Attempting { driver: DriverKind::Software, fallback_used: true },
            seq![status] + rest,
        ) == 1,
{
    let retry = DeviceSelection::Attempting { driver: DriverKind::Software, fallback_used: true };
    let statuses = seq![status] + rest;
    let failed = DeviceSelection::Failed { status };
    assert(statuses.first() == status);
    assert(selection_step(retry, status) == failed);
    assert(run_selection(retry, statuses) == run_selection(failed, statuses.drop_first()));
    assert(attempts_used(retry, statuses) == 1 + attempts_used(failed, statuses.drop_first()));
    lemma_settled_selection_is_final(failed, statuses.drop_first());
}

/// Runs device selection against the attempt statuses the embedder's
/// creation calls report, in order.
pub fn select_device(statuses: &Vec<u32>) -> (s: DeviceSelection)
    ensures
        s == run_selection(
            DeviceSelection::Attempting { driver: DriverKind::Hardware, fallback_used: false },
            statuses@,
        ),
{
    let mut s = start_selection();
    let n = statuses.len();
    proof {
        assert(statuses@.subrange(0, n as int) =~= statuses@);
    }
    let mut i: usize = 0;
    while i < n
        invariant
            i <= n,
            n == statuses@.len(),
            run_selection(
                DeviceSelection::Attempting { driver: DriverKind::Hardware, fallback_used: false },
                statuses@,
            ) == run_selection(s, statuses@.subrange(i as int, n as int)),
        decreases n - i,
    {
        let ghost pending = statuses@.subrange(i as int, n as int);
        if matches!(s, DeviceSelection::Attempting { .. }) {
            s = on_attempt_result(s, statuses[i]);
            proof {
                assert(pending.first() == statuses@[i as int]);
                assert(pending.drop_first() =~= statuses@.subrange(i + 1, n as int));
            }
        } else {
            proof {
                lemma_settled_selection_is_final(s, pending);
                lemma_settled_selection_is_final(s, statuses@.subrange(i + 1, n as int));
            }
        }
        i = i + 1;
    }
    proof {
        assert(statuses@.subrange(n as int, n as int) =~= Seq::<u32>::empty());
    }
    s
}

} // verus!
