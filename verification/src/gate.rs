//! The persistent gate object: thresholds fixed at construction, state
//! carried across processing calls.

use vstd::prelude::*;
use crate::level::{SampleLevel, max_abs, spec_level};
use crate::state::{GateState, next_state, spec_next};

verus! {

/// A noise gate for one audio channel. Create it once with its thresholds,
/// then drive it with one `process` call per buffer for the life of the
/// stream.
pub struct Gate {
    /// The current state, updated by every `process` call.
    pub state: GateState,
    /// Level at or above which the signal counts as loud.
    pub open_threshold: i32,
    /// Level at or above which the signal counts as present but not loud.
    pub close_threshold: i32,
}

impl Gate {
    /// A gate is well formed when its thresholds are ordered and its state
    /// holds a reachable count.
    pub open spec fn wf(self) -> bool {
        &&& 0 <= self.close_threshold <= self.open_threshold
        &&& self.state.wf()
    }

    /// Creates a closed gate with the given thresholds, which stay fixed for
    /// its whole life.
    pub fn new(open_threshold: i32, close_threshold: i32) -> (g: Gate)
        requires
            0 <= close_threshold <= open_threshold,
        ensures
            g.wf(),
            g.state == GateState::Closing,
            g.open_threshold == open_threshold,
            g.close_threshold == close_threshold,
    {
        Gate { state: GateState::Closing, open_threshold, close_threshold }
    }

    /// The current state, for the host's inspection.
    pub fn state(&self) -> (s: GateState)
        ensures
            s == self.state,
    {
        self.state
    }

    /// Classifies a buffer by its loudest sample: at or above the open
    /// threshold, between the two thresholds, or below both. An empty
    /// buffer counts as having a loudest sample of 0.
    pub fn get_sample_level(&self, samples: &[i32]) -> (l: SampleLevel)
        requires
            self.wf(),
        ensures
            l == spec_level(
                max_abs(samples@),
                self.close_threshold as int,
                self.open_threshold as int,
            ),
            l is AboveOpenThreshold <==> max_abs(samples@) >= self.open_threshold,
            l is AboveCloseThreshold <==> self.close_threshold <= max_abs(samples@)
                < self.open_threshold,
            l is Silent <==> max_abs(samples@) < self.close_threshold,
    {
        let mut max: i64 = 0;
        let mut i: usize = 0;
        while i < samples.len()
            invariant
                i <= samples@.len(),
                max == max_abs(samples@.take(i as int)),
            decreases samples@.len() - i,
        {
            let s = samples[i];
            let a: i64 = if s < 0 {
                -(s as i64)
            } else {
                s as i64
            };
            if a > max {
                max = a;
            }
            proof {
                assert(samples@.take(i + 1).drop_last() =~= samples@.take(i as int));
                assert(samples@.take(i + 1).last() == samples@[i as int]);
            }
            i += 1;
        }
        proof {
            assert(samples@.take(samples@.len() as int) =~= samples@);
        }
        if max >= self.open_threshold as i64 {
            SampleLevel::AboveOpenThreshold
        } else if max >= self.close_threshold as i64 {
            SampleLevel::AboveCloseThreshold
        } else {
            SampleLevel::Silent
        }
    }

    /// Processes one buffer: classifies `input`, steps the state machine,
    /// and then, unless the resulting state is `Closing`, copies `input`
    /// into `output` sample for sample. When the resulting state is
    /// `Closing`, `output` is left untouched, so the host keeps whatever
    /// silence it prepared there. Always reports success.
    pub fn process(&mut self, input: &[i32], output: &mut [i32]) -> (ok: bool)
        requires
            old(self).wf(),
            input@.len() == old(output)@.len(),
        ensures
            final(self).wf(),
            final(self).open_threshold == old(self).open_threshold,
            final(self).close_threshold == old(self).close_threshold,
            final(self).state == spec_next(
                old(self).state,
                spec_level(
                    max_abs(input@),
                    old(self).close_threshold as int,
                    old(self).open_threshold as int,
                ),
            ),
            final(output)@.len() == old(output)@.len(),
            !(final(self).state is Closing) ==> final(output)@ == input@,
            final(self).state is Closing ==> final(output)@ == old(output)@,
            ok,
    {
        let level = self.get_sample_level(input);
        self.state = next_state(self.state, level);
        if self.state != GateState::Closing {
            let n = input.len();
            let mut i: usize = 0;
            while i < n
                invariant
                    n == input@.len(),
                    output@.len() == n,
                    i <= n,
                    forall|j: int| 0 <= j < i ==> output@[j] == input@[j],
                decreases n - i,
            {
                output[i] = input[i];
                i += 1;
            }
            proof {
                assert(output@ =~= input@);
            }
        }
        true
    }
}

} // verus!
