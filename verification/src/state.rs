//! The noise-gate state machine: from the current state and the current
//! loudness level, decide the next state.

use vstd::prelude::*;
use crate::level::SampleLevel;

verus! {

/// How many processing calls a freshly entered transitional state lasts.
pub const TRANSITION_FRAMES: i32 = 5;

/// A gate's state. Exactly one state is active at a time; the three
/// counting variants carry the number of processing calls remaining before
/// they complete on their own.
///
/// A `remaining` value may be negative: re-entering `Attacking` out of a
/// barely started release seeds it with `5 * (1 - remaining / 2)`, which is
/// negative for `remaining > 2`. A non-positive count collapses on the next
/// call, so such a re-attack reopens almost at once. The signed
/// arithmetic is kept as is for compatibility.
#[derive(Clone, Copy, Debug, PartialEq, Eq, Structural)]
pub enum GateState {
    /// Fully closed; the output is left as silence.
    Closing,
    /// Fully open; the signal passes.
    Opening,
    /// Transitioning closed to open; the signal passes.
    Attacking(i32),
    /// Open but quiet, held open to avoid a premature close; the signal passes.
    Holding(i32),
    /// Transitioning open to closed; the signal passes.
    Releasing(i32),
}

impl GateState {
    /// Every state the machine can reach keeps its count in this range,
    /// which also keeps the re-attack arithmetic far from overflow.
    pub open spec fn wf(self) -> bool {
        match self {
            GateState::Attacking(r) => -TRANSITION_FRAMES <= r <= TRANSITION_FRAMES,
            GateState::Holding(r) => 0 <= r <= TRANSITION_FRAMES,
            GateState::Releasing(r) => 0 <= r <= TRANSITION_FRAMES,
            _ => true,
        }
    }
}

/// The transition rules, in priority order (the first match wins):
///
/// 1. `Closing` on a loud buffer starts an attack.
/// 2. An attack whose count has run out opens fully.
/// 3. `Opening` on a silent buffer starts the hold period.
/// 4. A held gate that hears the signal again reopens fully.
/// 5. A hold whose count has run out starts the release.
/// 6. A release interrupted by a loud buffer re-attacks, seeded faster the
///    further the release had progressed.
/// 7. A release whose count has run out closes fully.
///
/// When no rule fires and the state is a counting variant, its count goes
/// down by one; otherwise the state stays as it is.
pub open spec fn spec_next(s: GateState, l: SampleLevel) -> GateState {
    match s {
        GateState::Closing => if l is AboveOpenThreshold {
            GateState::Attacking(TRANSITION_FRAMES)
        } else {
            GateState::Closing
        },
        GateState::Attacking(r) => if r <= 0 {
            GateState::Opening
        } else {
            GateState::Attacking((r - 1) as i32)
        },
        GateState::Opening => if l is Silent {
            GateState::Holding(TRANSITION_FRAMES)
        } else {
            GateState::Opening
        },
        GateState::Holding(r) => if l is AboveCloseThreshold {
            GateState::Opening
        } else if r <= 0 {
            GateState::Releasing(TRANSITION_FRAMES)
        } else {
            GateState::Holding((r - 1) as i32)
        },
        GateState::Releasing(r) => if l is AboveOpenThreshold {
            GateState::Attacking((TRANSITION_FRAMES * (1 - r / 2)) as i32)
        } else if r <= 0 {
            GateState::Closing
        } else {
            GateState::Releasing((r - 1) as i32)
        },
    }
}

/// Computes the next state from the current state and the buffer's level.
pub fn next_state(s: GateState, l: SampleLevel) -> (n: GateState)
    requires
        s.wf(),
    ensures
        n == spec_next(s, l),
        n.wf(),
{
    match (s, l) {
        (GateState::Closing, SampleLevel::AboveOpenThreshold) => GateState::Attacking(
            TRANSITION_FRAMES,
        ),
        (GateState::Attacking(r), _) if r <= 0 => GateState::Opening,
        (GateState::Opening, SampleLevel::Silent) => GateState::Holding(TRANSITION_FRAMES),
        (GateState::Holding(_), SampleLevel::AboveCloseThreshold) => GateState::Opening,
        (GateState::Holding(r), _) if r <= 0 => GateState::Releasing(TRANSITION_FRAMES),
        (GateState::Releasing(r), SampleLevel::AboveOpenThreshold) => GateState::Attacking(
            TRANSITION_FRAMES * (1 - r / 2),
        ),
        (GateState::Releasing(r), _) if r <= 0 => GateState::Closing,
        (GateState::Attacking(r), _) => GateState::Attacking(r - 1),
        (GateState::Holding(r), _) => GateState::Holding(r - 1),
        (GateState::Releasing(r), _) => GateState::Releasing(r - 1),
        (other, _) => other,
    }
}

/// The state machine is deterministic: the decision is a function of the
/// current state and the level alone, so equal inputs give equal next states.
pub proof fn lemma_next_deterministic(
    s1: GateState,
    l1: SampleLevel,
    s2: GateState,
    l2: SampleLevel,
)
    requires
        s1 == s2,
        l1 == l2,
    ensures
        spec_next(s1, l1) == spec_next(s2, l2),
{
}

/// From `Closing`, only a buffer at or above the open threshold leaves the
/// state, starting a fresh attack; every other level keeps it closed.
pub proof fn lemma_closing_leaves_only_on_loud(l: SampleLevel)
    ensures
        l is AboveOpenThreshold ==> spec_next(GateState::Closing, l) == GateState::Attacking(
            TRANSITION_FRAMES,
        ),
        !(l is AboveOpenThreshold) ==> spec_next(GateState::Closing, l) == GateState::Closing,
{
}

} // verus!
