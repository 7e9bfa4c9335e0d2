//! The decisions of one scheduled sync cycle.
//!
//! A cycle starts idle, resolves the newest release, asks whether its
//! destination is already there, and then either skips or hands the
//! download to a task of its own. The caller does the outside work and
//! reports each outcome as an event.

use vstd::prelude::*;

verus! {

/// Where a cycle stands.
#[derive(Debug, Clone, Copy, PartialEq, Eq, Structural)]
pub enum CyclePhase {
    Idle,
    Resolving,
    Checking,
    Skipped,
    Downloading,
}

/// What the caller reports to the cycle.
#[derive(Debug, Clone, Copy, PartialEq, Eq, Structural)]
pub enum CycleEvent {
    /// The scheduler fired.
    Tick,
    /// The feed resolved into a record.
    Resolved,
    /// The feed did not resolve.
    ResolveFailed,
    /// The destination was looked for: `Some(true)` where it is there,
    /// `Some(false)` where it is not, `None` where the lookup itself failed.
    Probed(Option<bool>),
    /// The skip was noted, or the transfer task was launched.
    Released,
}

/// What the caller does next.
#[derive(Debug, Clone, Copy, PartialEq, Eq, Structural)]
pub enum CycleAction {
    /// Fetch the feed and resolve it.
    Resolve,
    /// Look for the destination file.
    Probe,
    /// Log the resolution error; the cycle is over.
    ReportError,
    /// Note that the release was fetched before; no request is made.
    Skip,
    /// Launch a detached transfer of the record.
    SpawnTransfer,
    /// Nothing to do.
    Nothing,
}

/// Whether a lookup of the destination says that the release was fetched
/// before. Only a destination known to be there counts.
pub open spec fn fetched_before(probe: Option<bool>) -> bool {
    probe == Some(true)
}

/// The phase that follows `phase` on `event`. An event that does not belong
/// to the phase changes nothing.
pub open spec fn next_phase(phase: CyclePhase, event: CycleEvent) -> CyclePhase {
    match (phase, event) {
        (CyclePhase::Idle, CycleEvent::Tick) => CyclePhase::Resolving,
        (CyclePhase::Resolving, CycleEvent::Resolved) => CyclePhase::Checking,
        (CyclePhase::Resolving, CycleEvent::ResolveFailed) => CyclePhase::Idle,
        (CyclePhase::Checking, CycleEvent::Probed(probe)) => if fetched_before(probe) {
            CyclePhase::Skipped
        } else {
            CyclePhase::Downloading
        },
        (CyclePhase::Skipped, CycleEvent::Released) => CyclePhase::Idle,
        (CyclePhase::Downloading, CycleEvent::Released) => CyclePhase::Idle,
        _ => phase,
    }
}

/// The action that `event` calls for in `phase`.
pub open spec fn cycle_action(phase: CyclePhase, event: CycleEvent) -> CycleAction {
    match (phase, event) {
        (CyclePhase::Idle, CycleEvent::Tick) => CycleAction::Resolve,
        (CyclePhase::Resolving, CycleEvent::Resolved) => CycleAction::Probe,
        (CyclePhase::Resolving, CycleEvent::ResolveFailed) => CycleAction::ReportError,
        (CyclePhase::Checking, CycleEvent::Probed(probe)) => if fetched_before(probe) {
            CycleAction::Skip
        } else {
            CycleAction::SpawnTransfer
        },
        _ => CycleAction::Nothing,
    }
}

/// The phase reached from `phase` after `events`, in order.
pub open spec fn phase_after(phase: CyclePhase, events: Seq<CycleEvent>) -> CyclePhase
    decreases events.len(),
{
    if events.len() == 0 {
        phase
    } else {
        next_phase(phase_after(phase, events.drop_last()), events.last())
    }
}

/// The dedup gate: says whether the release was fetched before, from what
/// a lookup of its destination gave.
pub fn already_fetched(probe: Option<bool>) -> (r: bool)
    ensures
        r == fetched_before(probe),
{
    match probe {
        Some(present) => present,
        None => false,
    }
}

/// Takes one event and gives the next phase and what to do.
pub fn advance(phase: CyclePhase, event: CycleEvent) -> (r: (CyclePhase, CycleAction))
    ensures
        r.0 == next_phase(phase, event),
        r.1 == cycle_action(phase, event),
{
    match phase {
        CyclePhase::Idle => match event {
            CycleEvent::Tick => (CyclePhase::Resolving, CycleAction::Resolve),
            _ => (phase, CycleAction::Nothing),
        },
        CyclePhase::Resolving => match event {
            CycleEvent::Resolved => (CyclePhase::Checking, CycleAction::Probe),
            CycleEvent::ResolveFailed => (CyclePhase::Idle, CycleAction::ReportError),
            _ => (phase, CycleAction::Nothing),
        },
        CyclePhase::Checking => match event {
            CycleEvent::Probed(probe) => {
                if already_fetched(probe) {
                    (CyclePhase::Skipped, CycleAction::Skip)
                } else {
                    (CyclePhase::Downloading, CycleAction::SpawnTransfer)
                }
            },
            _ => (phase, CycleAction::Nothing),
        },
        CyclePhase::Skipped => match event {
            CycleEvent::Released => (CyclePhase::Idle, CycleAction::Nothing),
            _ => (phase, CycleAction::Nothing),
        },
        CyclePhase::Downloading => match event {
            CycleEvent::Released => (CyclePhase::Idle, CycleAction::Nothing),
            _ => (phase, CycleAction::Nothing),
        },
    }
}

/// A transfer is launched in one situation only: the cycle is checking and
/// the destination was not found to be there. A destination that is there
/// is answered by a skip, in every phase and for every event.
pub proof fn lemma_transfer_only_for_missing_destination(phase: CyclePhase, event: CycleEvent)
    ensures
        cycle_action(phase, event) == CycleAction::SpawnTransfer <==> (match (phase, event) {
            (CyclePhase::Checking, CycleEvent::Probed(probe)) => !fetched_before(probe),
            _ => false,
        }),
        event == CycleEvent::Probed(Some(true)) ==> cycle_action(phase, event)
            != CycleAction::SpawnTransfer,
        phase == CyclePhase::Checking && event == CycleEvent::Probed(Some(true)) ==> cycle_action(
            phase,
            event,
        ) == CycleAction::Skip && next_phase(phase, event) == CyclePhase::Skipped,
{
}

/// Every tick ends idle: after a failed resolution at once, else after the
/// probe and the release that follows it, whatever the probe gave.
pub proof fn lemma_tick_ends_idle(probe: Option<bool>)
    ensures
        phase_after(CyclePhase::Idle, seq![CycleEvent::Tick, CycleEvent::ResolveFailed])
            == CyclePhase::Idle,
        phase_after(
            CyclePhase::Idle,
            seq![
                CycleEvent::Tick,
                CycleEvent::Resolved,
                CycleEvent::Probed(probe),
                CycleEvent::Released,
            ],
        ) == CyclePhase::Idle,
{
    let failed = seq![CycleEvent::Tick, CycleEvent::ResolveFailed];
    assert(failed.drop_last() =~= seq![CycleEvent::Tick]);
    assert(failed.drop_last().drop_last() =~= Seq::<CycleEvent>::empty());
    reveal_with_fuel(phase_after, 5);
    let whole = seq![
        CycleEvent::Tick,
        CycleEvent::Resolved,
        CycleEvent::Probed(probe),
        CycleEvent::Released,
    ];
    assert(whole.drop_last() =~= seq![
        CycleEvent::Tick,
        CycleEvent::Resolved,
        CycleEvent::Probed(probe),
    ]);
    assert(whole.drop_last().drop_last() =~= seq![CycleEvent::Tick, CycleEvent::Resolved]);
    assert(whole.drop_last().drop_last().drop_last() =~= seq![CycleEvent::Tick]);
    assert(whole.drop_last().drop_last().drop_last().drop_last() =~= Seq::<CycleEvent>::empty());
}

} // verus!
