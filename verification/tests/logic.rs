use audio_idle_inhibit::debounce::debounce_step;
use audio_idle_inhibit::debounce::DebounceAction;
use audio_idle_inhibit::debounce::DebouncePhase;
use audio_idle_inhibit::debounce::RecvOutcome;
use audio_idle_inhibit::inhibit::InhibitAction;
use audio_idle_inhibit::inhibit::InhibitorController;

/// A driver for the debounce loop and controller, as the process would run
/// them: it performs the waits, carries out the actions, and counts what
/// the compositor and the audio oracle would observe.
struct Sim {
    controller: InhibitorController,
    phase: DebouncePhase,
    queries: usize,
    transitions: usize,
    round_trips: usize,
    inhibitor_objects: usize,
}

impl Sim {
    fn new() -> Sim {
        Sim {
            controller: InhibitorController::new(),
            phase: DebouncePhase::AwaitFirst,
            queries: 0,
            transitions: 0,
            round_trips: 0,
            inhibitor_objects: 0,
        }
    }

    /// Feed one wait outcome; `oracle_value` is what the audio-state oracle
    /// would answer if this outcome settles the burst.
    fn feed(&mut self, outcome: RecvOutcome, oracle_value: bool) -> DebounceAction {
        let (phase, action) = debounce_step(self.phase, outcome);
        self.phase = phase;
        if action == DebounceAction::Settle {
            self.queries += 1;
            if let Some(act) = self.controller.set_inhibited(oracle_value) {
                self.transitions += 1;
                self.round_trips += 1;
                match act {
                    InhibitAction::CreateInhibitor => self.inhibitor_objects += 1,
                    InhibitAction::DestroyInhibitor => self.inhibitor_objects -= 1,
                }
            }
            let expected = if self.controller.is_inhibited() { 1 } else { 0 };
            assert_eq!(self.inhibitor_objects, expected);
        }
        action
    }
}

#[test]
fn set_inhibited_is_idempotent() {
    let mut c = InhibitorController::new();
    assert!(!c.is_inhibited());
    assert_eq!(c.set_inhibited(true), Some(InhibitAction::CreateInhibitor));
    assert!(c.is_inhibited());
    assert_eq!(c.set_inhibited(true), None);
    assert!(c.is_inhibited());
    assert_eq!(c.set_inhibited(false), Some(InhibitAction::DestroyInhibitor));
    assert!(!c.is_inhibited());
    assert_eq!(c.set_inhibited(false), None);
    assert!(!c.is_inhibited());
}

#[test]
fn controller_never_doubles_or_destroys_unheld() {
    let mut c = InhibitorController::new();
    let mut objects: i64 = 0;
    for desired in [false, true, true, false, false, true, false, true, true] {
        if let Some(act) = c.set_inhibited(desired) {
            match act {
                InhibitAction::CreateInhibitor => {
                    assert_eq!(objects, 0);
                    objects += 1;
                }
                InhibitAction::DestroyInhibitor => {
                    assert_eq!(objects, 1);
                    objects -= 1;
                }
            }
        }
        assert_eq!(objects, i64::from(c.is_inhibited()));
    }
}

#[test]
fn burst_settles_exactly_once() {
    let mut sim = Sim::new();
    for _ in 0..5 {
        let action = sim.feed(RecvOutcome::Signal, true);
        assert_eq!(action, DebounceAction::Continue);
        assert_eq!(sim.queries, 0);
    }
    let action = sim.feed(RecvOutcome::TimedOut, true);
    assert_eq!(action, DebounceAction::Settle);
    assert_eq!(sim.queries, 1);
    assert_eq!(sim.transitions, 1);
}

#[test]
fn signal_before_window_expiry_restarts_window() {
    let (phase, action) = debounce_step(DebouncePhase::Draining, RecvOutcome::Signal);
    assert_eq!(phase, DebouncePhase::Draining);
    assert_eq!(action, DebounceAction::Continue);
    let (phase, action) = debounce_step(phase, RecvOutcome::TimedOut);
    assert_eq!(phase, DebouncePhase::AwaitFirst);
    assert_eq!(action, DebounceAction::Settle);
}

#[test]
fn closed_source_stops_the_loop() {
    let (_, action) = debounce_step(DebouncePhase::AwaitFirst, RecvOutcome::Closed);
    assert_eq!(action, DebounceAction::Stop);
    let (_, action) = debounce_step(DebouncePhase::Draining, RecvOutcome::Closed);
    assert_eq!(action, DebounceAction::Stop);
}

#[test]
fn startup_signal_evaluates_exactly_once() {
    for initial_audio in [false, true] {
        let mut sim = Sim::new();
        assert_eq!(sim.feed(RecvOutcome::Signal, initial_audio), DebounceAction::Continue);
        assert_eq!(sim.feed(RecvOutcome::TimedOut, initial_audio), DebounceAction::Settle);
        assert_eq!(sim.queries, 1);
        assert_eq!(sim.controller.is_inhibited(), initial_audio);
        assert_eq!(sim.phase, DebouncePhase::AwaitFirst);
    }
}

#[test]
fn end_to_end_scenario() {
    let mut sim = Sim::new();

    // Startup: the synthetic wake signal settles with the oracle at false.
    sim.feed(RecvOutcome::Signal, false);
    sim.feed(RecvOutcome::TimedOut, false);
    assert_eq!(sim.queries, 1);
    assert_eq!(sim.inhibitor_objects, 0);
    assert_eq!(sim.round_trips, 0);

    // The oracle flips to true and one relevant change event arrives.
    sim.feed(RecvOutcome::Signal, true);
    sim.feed(RecvOutcome::TimedOut, true);
    assert_eq!(sim.queries, 2);
    assert_eq!(sim.inhibitor_objects, 1);
    assert_eq!(sim.round_trips, 1);

    // The oracle flips back to false and one relevant event arrives.
    sim.feed(RecvOutcome::Signal, false);
    sim.feed(RecvOutcome::TimedOut, false);
    assert_eq!(sim.queries, 3);
    assert_eq!(sim.inhibitor_objects, 0);
    assert_eq!(sim.round_trips, 2);

    // A burst of five relevant events close together: one query, and no
    // transition since the state already agrees.
    for _ in 0..5 {
        sim.feed(RecvOutcome::Signal, false);
    }
    sim.feed(RecvOutcome::TimedOut, false);
    assert_eq!(sim.queries, 4);
    assert_eq!(sim.transitions, 2);
    assert_eq!(sim.round_trips, 2);
    assert_eq!(sim.inhibitor_objects, 0);

    // The event source closes: the loop stops.
    assert_eq!(sim.feed(RecvOutcome::Closed, false), DebounceAction::Stop);
}
