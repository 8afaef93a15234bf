use vstd::prelude::*;
use crate::port::Port;
use crate::time::{Time, sub_spec};

verus! {

/// Emits numbered jobs, one every `period`, until a stop signal arrives.
pub struct GeneratorState {
    pub sigma: Time,
    pub period: u64,
    pub count: usize,
}

impl GeneratorState {
    /// A generator that emits its first job at once.
    pub fn new(period: u64) -> (r: Self)
        ensures
            r == (GeneratorState { sigma: Time::Finite(0), period, count: 0 }),
    {
        GeneratorState { sigma: Time::Finite(0), period, count: 0 }
    }
}

pub struct GeneratorInput {
    pub in_stop: Port<bool>,
}

pub struct GeneratorOutput {
    pub out_job: Port<usize>,
}

/// The generator model: its state and its ports.
pub struct Generator {
    pub state: GeneratorState,
    pub input: GeneratorInput,
    pub output: GeneratorOutput,
}

/// The number of the next job: one more, held at the largest `usize`.
pub open spec fn next_count(c: usize) -> usize {
    if c < usize::MAX {
        (c + 1) as usize
    } else {
        c
    }
}

impl Generator {
    pub open spec fn wf(&self) -> bool {
        &&& self.input.in_stop.wf()
        &&& self.output.out_job.wf()
    }

    /// Ports empty, as they are between steps.
    pub open spec fn quiet(&self) -> bool {
        &&& self.input.in_stop@.len() == 0
        &&& self.output.out_job@.len() == 0
    }

    pub fn new(state: GeneratorState) -> (r: Generator)
        ensures
            r.wf(),
            r.quiet(),
            r.state == state,
            r.input.in_stop.cap() == 1,
            r.output.out_job.cap() == 1,
    {
        Generator {
            state,
            input: GeneratorInput { in_stop: Port::with_capacity(1) },
            output: GeneratorOutput { out_job: Port::with_capacity(1) },
        }
    }

    pub open spec fn int_spec(s: GeneratorState) -> GeneratorState {
        GeneratorState { sigma: Time::Finite(s.period), count: next_count(s.count), ..s }
    }

    /// The last stop value received decides: `true` stops the generator for good.
    pub open spec fn ext_spec(s: GeneratorState, e: u64, stops: Seq<bool>) -> GeneratorState {
        if stops.len() > 0 && stops.last() {
            GeneratorState { sigma: Time::Infinite, ..s }
        } else {
            GeneratorState { sigma: sub_spec(s.sigma, e), ..s }
        }
    }

    /// Counts the job just sent and schedules the next one a period later.
    pub fn delta_int(state: &mut GeneratorState)
        ensures
            *final(state) == Self::int_spec(*old(state)),
    {
        if state.count < usize::MAX {
            state.count = state.count + 1;
        }
        state.sigma = Time::Finite(state.period);
    }

    /// Sends the current job number.
    pub fn lambda(state: &GeneratorState, output: &mut GeneratorOutput)
        requires
            old(output).out_job.wf(),
            old(output).out_job@.len() == 0,
        ensures
            final(output).out_job.wf(),
            final(output).out_job@ == seq![state.count],
    {
        proof {
            output.out_job.lemma_wf();
        }
        let r = output.out_job.add_value(state.count);
        assert(r is Ok);
    }

    pub fn ta(state: &GeneratorState) -> (r: Time)
        ensures
            r == state.sigma,
    {
        state.sigma
    }

    /// Takes `e` off the time advance, then obeys the last stop signal.
    pub fn delta_ext(state: &mut GeneratorState, e: u64, x: &GeneratorInput)
        requires
            old(state).sigma matches Time::Finite(s) ==> e <= s,
        ensures
            *final(state) == Self::ext_spec(*old(state), e, x.in_stop@),
    {
        state.sigma = state.sigma.minus(e);
        if let Some(stop) = x.in_stop.last() {
            if stop {
                state.sigma = Time::Infinite;
            }
        }
    }

    /// The state after one step: internal transition when imminent, then the
    /// stop signals as an external transition with no time elapsed; an
    /// external transition alone when only signals arrived.
    pub open spec fn transition_spec(s: GeneratorState, imminent: bool, e: u64, stops: Seq<bool>) -> GeneratorState {
        if imminent {
            if stops.len() > 0 {
                Self::ext_spec(Self::int_spec(s), 0, stops)
            } else {
                Self::int_spec(s)
            }
        } else if stops.len() > 0 {
            Self::ext_spec(s, e, stops)
        } else {
            s
        }
    }

    /// The output phase of a step: an imminent generator sends its job.
    pub fn output(&mut self, imminent: bool)
        requires
            old(self).wf(),
            old(self).output.out_job@.len() == 0,
        ensures
            final(self).wf(),
            final(self).state == old(self).state,
            final(self).input.in_stop@ == old(self).input.in_stop@,
            final(self).output.out_job@ == (if imminent { seq![old(self).state.count] } else { Seq::<usize>::empty() }),
    {
        if imminent {
            Self::lambda(&self.state, &mut self.output);
        }
    }

    /// The transition phase of a step, `e` after the last transition; the
    /// ports are emptied afterwards.
    pub fn transition(&mut self, imminent: bool, e: u64)
        requires
            old(self).wf(),
            old(self).state.sigma matches Time::Finite(s) ==> e <= s,
        ensures
            final(self).wf(),
            final(self).quiet(),
            final(self).state == Self::transition_spec(old(self).state, imminent, e, old(self).input.in_stop@),
    {
        let has_input = !self.input.in_stop.is_empty();
        if imminent {
            Self::delta_int(&mut self.state);
            if has_input {
                Self::delta_ext(&mut self.state, 0, &self.input);
            }
        } else if has_input {
            Self::delta_ext(&mut self.state, e, &self.input);
        }
        self.input.in_stop.clear();
        self.output.out_job.clear();
    }
}

/// The state after `n` internal transitions and no external one.
pub open spec fn after_internal(s: GeneratorState, n: nat) -> GeneratorState
    decreases n,
{
    if n == 0 {
        s
    } else {
        Generator::int_spec(after_internal(s, (n - 1) as nat))
    }
}

/// The virtual time, from the start, of the `n`-th emission (counting from
/// zero) of a generator left to itself.
pub open spec fn emission_time(s: GeneratorState, n: nat) -> int
    decreases n,
{
    if n == 0 {
        s.sigma->Finite_0 as int
    } else {
        emission_time(s, (n - 1) as nat) + after_internal(s, n).sigma->Finite_0 as int
    }
}

/// A new generator with period `period` that receives no stop signal sends
/// job `n` at virtual time `n * period`.
pub proof fn lemma_job_n_at_n_periods(period: u64, n: nat)
    requires
        n < usize::MAX,
    ensures
        after_internal(GeneratorState { sigma: Time::Finite(0), period, count: 0 }, n).count == n,
        emission_time(GeneratorState { sigma: Time::Finite(0), period, count: 0 }, n) == n * period,
        n > 0 ==> after_internal(GeneratorState { sigma: Time::Finite(0), period, count: 0 }, n).sigma
            == Time::Finite(period),
    decreases n,
{
    let s0 = GeneratorState { sigma: Time::Finite(0), period, count: 0 };
    if n > 0 {
        lemma_job_n_at_n_periods(period, (n - 1) as nat);
        assert(emission_time(s0, n) == emission_time(s0, (n - 1) as nat) + period);
        assert((n - 1) * period + period == n * period) by (nonlinear_arith);
    }
}

} // verus!
