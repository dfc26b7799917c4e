//! The debounce loop: coalescing bursts of wake signals into one settled
//! decision.
//!
//! The loop alternates between two waits: while no burst is in flight it
//! blocks until a wake signal arrives, and once one has arrived it waits up
//! to one settle window for another, restarting the window on every arrival.
//! Only a full quiet window settles the burst; settling queries the audio
//! state once and applies it through the inhibitor controller.  The caller
//! runs the loop: it performs the wait that the current phase calls for,
//! feeds the outcome to [`debounce_step`], and carries out the returned
//! action.

use vstd::prelude::*;

verus! {

use crate::inhibit::InhibitAction;
use crate::inhibit::spec_set_inhibited;

/// The settle window, in seconds: how long the loop must hear nothing
/// before a burst counts as settled.
pub const SETTLE_WINDOW_SECS: u64 = 1;

/// The capacity of the wake-signal queue.  A single slot is deliberate
/// backpressure: a burst of sends collapses while the loop is busy.
pub const WAKE_QUEUE_CAPACITY: usize = 1;

/// Where the loop stands between two wait operations.
///
/// In `AwaitFirst` the loop blocks indefinitely for the first signal of a
/// burst; in `Draining` it waits at most one settle window for a further
/// signal.
#[derive(Clone, Copy, Debug, PartialEq, Eq, Structural)]
pub enum DebouncePhase {
    AwaitFirst,
    Draining,
}

/// What a wait operation came back with: a wake signal, the settle window
/// elapsing with no signal, or the signal source being closed for good.
/// `TimedOut` can only arise from the bounded wait of the `Draining` phase;
/// the `AwaitFirst` wait has no timeout.
#[derive(Clone, Copy, Debug, PartialEq, Eq, Structural)]
pub enum RecvOutcome {
    Signal,
    TimedOut,
    Closed,
}

/// What the loop must do next: keep waiting (in the new phase), settle the
/// burst — query the audio state once and pass the answer to the inhibitor
/// controller — or stop for good because the signal source closed.
#[derive(Clone, Copy, Debug, PartialEq, Eq, Structural)]
pub enum DebounceAction {
    Continue,
    Settle,
    Stop,
}

/// One turn of the loop: a signal (re)starts the settle window, a quiet
/// window settles the burst and returns to blocking, a closed source stops
/// the loop.
pub open spec fn spec_debounce_step(phase: DebouncePhase, outcome: RecvOutcome) -> (
    DebouncePhase,
    DebounceAction,
) {
    match outcome {
        RecvOutcome::Signal => (DebouncePhase::Draining, DebounceAction::Continue),
        RecvOutcome::TimedOut => (DebouncePhase::AwaitFirst, DebounceAction::Settle),
        RecvOutcome::Closed => (phase, DebounceAction::Stop),
    }
}

/// Advance the loop by one wait outcome: the phase to wait in next, and the
/// action to carry out first.
///
/// The blocking wait of `AwaitFirst` cannot time out, so that combination
/// never arises.
pub fn debounce_step(phase: DebouncePhase, outcome: RecvOutcome) -> (r: (
    DebouncePhase,
    DebounceAction,
))
    requires
        !(phase is AwaitFirst && outcome is TimedOut),
    ensures
        r == spec_debounce_step(phase, outcome),
{
    match outcome {
        RecvOutcome::Signal => (DebouncePhase::Draining, DebounceAction::Continue),
        RecvOutcome::TimedOut => (DebouncePhase::AwaitFirst, DebounceAction::Settle),
        RecvOutcome::Closed => (phase, DebounceAction::Stop),
    }
}

/// The phase the loop is in after the wait outcomes `outcomes`, starting
/// from `p`.
pub open spec fn run_phase(p: DebouncePhase, outcomes: Seq<RecvOutcome>) -> DebouncePhase
    decreases outcomes.len(),
{
    if outcomes.len() == 0 {
        p
    } else {
        run_phase(spec_debounce_step(p, outcomes[0]).0, outcomes.drop_first())
    }
}

/// The actions the loop carries out over the wait outcomes `outcomes`, in
/// order, starting from `p`.
pub open spec fn run_actions(p: DebouncePhase, outcomes: Seq<RecvOutcome>) -> Seq<DebounceAction>
    decreases outcomes.len(),
{
    if outcomes.len() == 0 {
        Seq::empty()
    } else {
        let step = spec_debounce_step(p, outcomes[0]);
        seq![step.1].add(run_actions(step.0, outcomes.drop_first()))
    }
}

/// How many of the actions settle a burst — each one is exactly one
/// audio-state query and at most one inhibitor transition.
pub open spec fn settle_count(acts: Seq<DebounceAction>) -> int
    decreases acts.len(),
{
    if acts.len() == 0 {
        0
    } else {
        (if acts[0] is Settle {
            1int
        } else {
            0int
        }) + settle_count(acts.drop_first())
    }
}

/// A burst: `n` wake signals in close succession, then one full quiet
/// settle window.
pub open spec fn burst(n: nat) -> Seq<RecvOutcome> {
    Seq::new(n, |i: int| RecvOutcome::Signal).push(RecvOutcome::TimedOut)
}

/// Debounce reset: a wake signal arriving while the settle window runs
/// restarts the window — the loop stays in `Draining` and waits a full
/// window again — and never settles the burst by itself.
pub proof fn lemma_signal_restarts_window(p: DebouncePhase)
    ensures
        spec_debounce_step(p, RecvOutcome::Signal) == (
            DebouncePhase::Draining,
            DebounceAction::Continue,
        ),
{
}

/// The loop settles exactly at the outcomes where a full settle window
/// elapsed with no new signal, and nowhere else.
pub proof fn lemma_settle_only_on_quiet_window(p: DebouncePhase, outcomes: Seq<RecvOutcome>)
    ensures
        run_actions(p, outcomes).len() == outcomes.len(),
        forall|i: int|
            0 <= i < outcomes.len() ==> (run_actions(p, outcomes)[i] is Settle <==> outcomes[i]
                is TimedOut),
    decreases outcomes.len(),
{
    if outcomes.len() > 0 {
        let step = spec_debounce_step(p, outcomes[0]);
        let rest = run_actions(step.0, outcomes.drop_first());
        lemma_settle_only_on_quiet_window(step.0, outcomes.drop_first());
        let acts = run_actions(p, outcomes);
        assert(acts == seq![step.1].add(rest));
        assert forall|i: int| 0 <= i < outcomes.len() implies (acts[i] is Settle <==> outcomes[i]
            is TimedOut) by {
            if i > 0 {
                assert(acts[i] == rest[i - 1]);
                assert(outcomes[i] == outcomes.drop_first()[i - 1]);
            }
        }
    }
}

/// From any phase, `k` further wake signals followed by one quiet window
/// keep the loop waiting, settle exactly once (at the quiet window), and
/// return it to blocking for the next burst.
proof fn lemma_burst_from(p: DebouncePhase, k: nat)
    ensures
        ({
            let acts = run_actions(p, burst(k));
            &&& acts.len() == k + 1
            &&& settle_count(acts) == 1
            &&& (forall|i: int| 0 <= i < k ==> acts[i] is Continue)
            &&& acts[k as int] is Settle
            &&& run_phase(p, burst(k)) is AwaitFirst
        }),
    decreases k,
{
    let outcomes = burst(k);
    let step = spec_debounce_step(p, outcomes[0]);
    if k == 0 {
        assert(outcomes[0] == RecvOutcome::TimedOut);
        assert(outcomes.drop_first() =~= Seq::<RecvOutcome>::empty());
        assert(run_actions(DebouncePhase::AwaitFirst, Seq::<RecvOutcome>::empty())
            =~= Seq::<DebounceAction>::empty());
        assert(run_phase(DebouncePhase::AwaitFirst, Seq::<RecvOutcome>::empty())
            is AwaitFirst);
        let acts = run_actions(p, outcomes);
        assert(acts =~= seq![DebounceAction::Settle]);
        assert(acts.drop_first() =~= Seq::<DebounceAction>::empty());
        assert(settle_count(Seq::<DebounceAction>::empty()) == 0);
    } else {
        assert(outcomes[0] == RecvOutcome::Signal);
        assert(outcomes.drop_first() =~= burst((k - 1) as nat));
        lemma_burst_from(DebouncePhase::Draining, (k - 1) as nat);
        let rest = run_actions(DebouncePhase::Draining, burst((k - 1) as nat));
        let acts = run_actions(p, outcomes);
        assert(acts == seq![DebounceAction::Continue].add(rest));
        assert(acts.drop_first() =~= rest);
        assert forall|i: int| 0 <= i < k implies acts[i] is Continue by {
            if i > 0 {
                assert(acts[i] == rest[i - 1]);
            }
        }
        assert(acts[k as int] == rest[k - 1]);
    }
}

/// Debounce coalescing: `n` wake signals (`n >= 1`) arriving strictly
/// within the settle window of each other are one burst; the loop performs
/// exactly one settle for the whole burst — one audio-state query and at
/// most one inhibitor transition — and only after the window has elapsed
/// quietly, then goes back to blocking for the next burst.
pub proof fn lemma_burst_coalesces(n: nat)
    requires
        n >= 1,
    ensures
        ({
            let acts = run_actions(DebouncePhase::AwaitFirst, burst(n));
            &&& acts.len() == n + 1
            &&& settle_count(acts) == 1
            &&& (forall|i: int| 0 <= i < n ==> acts[i] is Continue)
            &&& acts[n as int] is Settle
            &&& run_phase(DebouncePhase::AwaitFirst, burst(n)) is AwaitFirst
        }),
{
    lemma_burst_from(DebouncePhase::AwaitFirst, n);
}

/// Startup evaluation: with no external events at all, the single synthetic
/// startup signal settles exactly once, so the loop performs exactly one
/// audio-state query before blocking for further input; the controller,
/// starting uninhibited, then moves to exactly the oracle's answer, creating
/// an inhibitor only if audio is active.
pub proof fn lemma_startup_evaluates_once(audio_active: bool)
    ensures
        ({
            let acts = run_actions(DebouncePhase::AwaitFirst, burst(1));
            &&& acts.len() == 2
            &&& settle_count(acts) == 1
            &&& acts[0] is Continue
            &&& acts[1] is Settle
            &&& run_phase(DebouncePhase::AwaitFirst, burst(1)) is AwaitFirst
        }),
        ({
            let (s1, a1) = spec_set_inhibited(false, audio_active);
            &&& s1 == audio_active
            &&& a1 == (if audio_active {
                Some(InhibitAction::CreateInhibitor)
            } else {
                None::<InhibitAction>
            })
        }),
{
    lemma_burst_coalesces(1);
}

} // verus!
