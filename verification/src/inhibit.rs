//! The inhibitor controller: a two-state machine deciding when an idle
//! inhibitor is created or destroyed.
//!
//! The controller owns the "currently inhibited" state and decides, for each
//! requested value, whether a compositor request must be issued.  The caller
//! carries each returned [`InhibitAction`] out against the compositor (create
//! or destroy the inhibitor object, then one round-trip) before the next call.

use vstd::prelude::*;

verus! {

/// A compositor request the controller asks its driver to carry out.
///
/// `CreateInhibitor` means: create one idle-inhibitor object bound to the
/// dummy surface; `DestroyInhibitor` means: destroy the one currently held
/// inhibitor object.  Either is followed by one round-trip.
#[derive(Clone, Copy, Debug, PartialEq, Eq, Structural)]
pub enum InhibitAction {
    CreateInhibitor,
    DestroyInhibitor,
}

/// The action `set_inhibited` issues when the state is `inhibited` and the
/// requested value is `desired`: nothing when they already agree, otherwise
/// the one transition that makes them agree.
pub open spec fn transition_action(inhibited: bool, desired: bool) -> Option<InhibitAction> {
    if desired == inhibited {
        None
    } else if desired {
        Some(InhibitAction::CreateInhibitor)
    } else {
        Some(InhibitAction::DestroyInhibitor)
    }
}

/// One `set_inhibited` call as a pure step: the state afterwards and the
/// action issued.
pub open spec fn spec_set_inhibited(inhibited: bool, desired: bool) -> (bool, Option<
    InhibitAction,
>) {
    (desired, transition_action(inhibited, desired))
}

/// Tracks whether an idle inhibitor is currently held.
///
/// Two states: uninhibited (no inhibitor object) and inhibited (exactly one
/// inhibitor object, bound to the dummy surface).  The initial state is
/// uninhibited.
pub struct InhibitorController {
    inhibited: bool,
}

impl InhibitorController {
    /// Whether the controller is in the inhibited state.
    pub closed spec fn spec_inhibited(&self) -> bool {
        self.inhibited
    }

    /// A fresh controller, in the uninhibited state.
    pub fn new() -> (r: InhibitorController)
        ensures
            !r.spec_inhibited(),
    {
        InhibitorController { inhibited: false }
    }

    /// True if and only if the inhibitor object is currently held.
    pub fn is_inhibited(&self) -> (r: bool)
        ensures
            r == self.spec_inhibited(),
    {
        self.inhibited
    }

    /// Move to the requested state, returning the compositor request this
    /// needs: `None` when the state already agrees (the idempotence guard —
    /// no request, no round-trip), otherwise exactly one create or destroy.
    ///
    /// A destroy is only ever issued while the inhibitor is held, and a
    /// create only while it is not.
    pub fn set_inhibited(&mut self, desired: bool) -> (action: Option<InhibitAction>)
        ensures
            (final(self).spec_inhibited(), action) == spec_set_inhibited(
                old(self).spec_inhibited(),
                desired,
            ),
            final(self).spec_inhibited() == desired,
            action is None <==> desired == old(self).spec_inhibited(),
            action == Some(InhibitAction::CreateInhibitor) <==> (desired && !old(
                self,
            ).spec_inhibited()),
            action == Some(InhibitAction::DestroyInhibitor) <==> (!desired && old(
                self,
            ).spec_inhibited()),
    {
        if desired == self.inhibited {
            return None;
        }
        self.inhibited = desired;
        if desired {
            Some(InhibitAction::CreateInhibitor)
        } else {
            Some(InhibitAction::DestroyInhibitor)
        }
    }
}

/// How many live inhibitor objects correspond to a controller state:
/// exactly one while inhibited, none otherwise.
pub open spec fn object_count(inhibited: bool) -> int {
    if inhibited {
        1
    } else {
        0
    }
}

/// The change a carried-out action makes to the number of live inhibitor
/// objects.
pub open spec fn action_delta(a: InhibitAction) -> int {
    match a {
        InhibitAction::CreateInhibitor => 1,
        InhibitAction::DestroyInhibitor => -1,
    }
}

/// Live inhibitor objects after carrying out `acts` in order, starting from
/// `n` live objects.
pub open spec fn objects_after(n: int, acts: Seq<InhibitAction>) -> int
    decreases acts.len(),
{
    if acts.len() == 0 {
        n
    } else {
        objects_after(n + action_delta(acts[0]), acts.drop_first())
    }
}

/// Carried out from `n` live objects, `acts` never creates a second
/// inhibitor and never destroys one that is not held.
pub open spec fn actions_safe(n: int, acts: Seq<InhibitAction>) -> bool
    decreases acts.len(),
{
    acts.len() == 0 || {
        &&& (acts[0] is CreateInhibitor ==> n == 0)
        &&& (acts[0] is DestroyInhibitor ==> n == 1)
        &&& actions_safe(n + action_delta(acts[0]), acts.drop_first())
    }
}

/// The actions a controller starting in state `s0` issues over the call
/// sequence `set_inhibited(ds[0])`, `set_inhibited(ds[1])`, ... (the no-op
/// calls issue nothing).
pub open spec fn issued_actions(s0: bool, ds: Seq<bool>) -> Seq<InhibitAction>
    decreases ds.len(),
{
    if ds.len() == 0 {
        Seq::empty()
    } else {
        let rest = issued_actions(ds[0], ds.drop_first());
        match transition_action(s0, ds[0]) {
            Some(x) => seq![x].add(rest),
            None => rest,
        }
    }
}

/// The controller state after the call sequence `ds`.
pub open spec fn state_after(s0: bool, ds: Seq<bool>) -> bool
    decreases ds.len(),
{
    if ds.len() == 0 {
        s0
    } else {
        state_after(ds[0], ds.drop_first())
    }
}

/// State-existence invariant: over any sequence of `set_inhibited` calls,
/// the requests the controller issues keep "is currently inhibited" equal to
/// "exactly one inhibitor object is live" — never two objects, and never a
/// destroy issued while none is held.
pub proof fn lemma_state_existence_invariant(s0: bool, ds: Seq<bool>)
    ensures
        ({
            let acts = issued_actions(s0, ds);
            &&& actions_safe(object_count(s0), acts)
            &&& objects_after(object_count(s0), acts) == object_count(state_after(s0, ds))
        }),
    decreases ds.len(),
{
    if ds.len() > 0 {
        let rest = issued_actions(ds[0], ds.drop_first());
        lemma_state_existence_invariant(ds[0], ds.drop_first());
        match transition_action(s0, ds[0]) {
            Some(x) => {
                let acts = seq![x].add(rest);
                assert(acts[0] == x);
                assert(acts.drop_first() =~= rest);
            },
            None => {},
        }
    }
}

/// Idempotence: two consecutive `set_inhibited` calls with the same value
/// issue at most one compositor request (and so at most one round-trip); the
/// second call is a pure no-op that changes nothing and issues nothing.
pub proof fn lemma_set_inhibited_idempotent(s0: bool, v: bool)
    ensures
        ({
            let (s1, a1) = spec_set_inhibited(s0, v);
            let (s2, a2) = spec_set_inhibited(s1, v);
            &&& a2 is None
            &&& s2 == s1
            &&& (if a1 is Some {
                1int
            } else {
                0int
            }) + (if a2 is Some {
                1int
            } else {
                0int
            }) <= 1
        }),
{
}

} // verus!
