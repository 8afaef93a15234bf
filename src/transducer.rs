use vstd::prelude::*;
use crate::port::Port;
use crate::time::{Time, sub_spec};

verus! {

/// Observes generated and processed jobs for a window of virtual time.
pub struct TransducerState {
    pub sigma: Time,
    pub clock: u64,
    pub n_gen: u64,
    pub n_proc: u64,
}

impl TransducerState {
    /// A transducer that reports after `obs_time`.
    pub fn new(obs_time: u64) -> (r: Self)
        ensures
            r == (TransducerState { sigma: Time::Finite(obs_time), clock: 0, n_gen: 0, n_proc: 0 }),
    {
        TransducerState { sigma: Time::Finite(obs_time), clock: 0, n_gen: 0, n_proc: 0 }
    }
}

/// The fraction `num / den`.
#[derive(Clone, Copy, PartialEq, Eq, Structural, Debug)]
pub struct Ratio {
    pub num: u64,
    pub den: u64,
}

/// The zero fraction.
pub open spec fn zero_ratio() -> Ratio {
    Ratio { num: 0, den: 1 }
}

/// What the transducer reports when its window closes: processed jobs per
/// generated job, and processed jobs per microsecond of virtual time.
#[derive(Clone, Copy, PartialEq, Eq, Structural, Debug)]
pub struct TransducerReport {
    pub acceptance: Ratio,
    pub throughput: Ratio,
}

pub struct TransducerInput {
    pub in_gen: Port<usize>,
    pub in_proc: Port<usize>,
}

pub struct TransducerOutput {
    pub out_stop: Port<bool>,
}

/// The transducer model: its state and its ports.
pub struct Transducer {
    pub state: TransducerState,
    pub input: TransducerInput,
    pub output: TransducerOutput,
}

impl Transducer {
    pub open spec fn wf(&self) -> bool {
        &&& self.input.in_gen.wf()
        &&& self.input.in_proc.wf()
        &&& self.output.out_stop.wf()
    }

    pub open spec fn quiet(&self) -> bool {
        &&& self.input.in_gen@.len() == 0
        &&& self.input.in_proc@.len() == 0
        &&& self.output.out_stop@.len() == 0
    }

    pub fn new(state: TransducerState) -> (r: Transducer)
        ensures
            r.wf(),
            r.quiet(),
            r.state == state,
            r.input.in_gen.cap() == 2,
            r.input.in_proc.cap() == 1,
            r.output.out_stop.cap() == 1,
    {
        Transducer {
            state,
            input: TransducerInput { in_gen: Port::with_capacity(2), in_proc: Port::with_capacity(1) },
            output: TransducerOutput { out_stop: Port::with_capacity(1) },
        }
    }

    /// The report over `n_gen` generated and `n_proc` processed jobs in
    /// `clock` microseconds; all zero when nothing was processed.
    pub open spec fn report_spec(n_gen: u64, n_proc: u64, clock: u64) -> TransducerReport {
        if n_proc > 0 {
            TransducerReport {
                acceptance: Ratio { num: n_proc, den: n_gen },
                throughput: Ratio { num: n_proc, den: clock },
            }
        } else {
            TransducerReport { acceptance: zero_ratio(), throughput: zero_ratio() }
        }
    }

    pub open spec fn int_spec(s: TransducerState) -> TransducerState {
        TransducerState {
            sigma: Time::Infinite,
            clock: s.clock.saturating_add(s.sigma->Finite_0),
            ..s
        }
    }

    pub open spec fn ext_spec(s: TransducerState, e: u64, n_gen: nat, n_proc: nat) -> TransducerState {
        TransducerState {
            sigma: sub_spec(s.sigma, e),
            clock: s.clock.saturating_add(e),
            n_gen: s.n_gen.saturating_add(n_gen as u64),
            n_proc: s.n_proc.saturating_add(n_proc as u64),
        }
    }

    /// Closes the window: advances the clock to its end, reports, and
    /// quiesces for good.
    pub fn delta_int(state: &mut TransducerState) -> (r: TransducerReport)
        requires
            old(state).sigma is Finite,
        ensures
            *final(state) == Self::int_spec(*old(state)),
            r == Self::report_spec(final(state).n_gen, final(state).n_proc, final(state).clock),
    {
        if let Time::Finite(s) = state.sigma {
            state.clock = state.clock.saturating_add(s);
        }
        let report = if state.n_proc > 0 {
            TransducerReport {
                acceptance: Ratio { num: state.n_proc, den: state.n_gen },
                throughput: Ratio { num: state.n_proc, den: state.clock },
            }
        } else {
            TransducerReport { acceptance: Ratio { num: 0, den: 1 }, throughput: Ratio { num: 0, den: 1 } }
        };
        state.sigma = Time::Infinite;
        report
    }

    /// Sends the stop signal.
    pub fn lambda(state: &TransducerState, output: &mut TransducerOutput)
        requires
            old(output).out_stop.wf(),
            old(output).out_stop@.len() == 0,
        ensures
            final(output).out_stop.wf(),
            final(output).out_stop@ == seq![true],
    {
        proof {
            output.out_stop.lemma_wf();
        }
        let r = output.out_stop.add_value(true);
        assert(r is Ok);
    }

    pub fn ta(state: &TransducerState) -> (r: Time)
        ensures
            r == state.sigma,
    {
        state.sigma
    }

    /// Advances the clock by `e` and counts the jobs that arrived.
    pub fn delta_ext(state: &mut TransducerState, e: u64, x: &TransducerInput)
        requires
            old(state).sigma matches Time::Finite(s) ==> e <= s,
        ensures
            *final(state) == Self::ext_spec(
                *old(state),
                e,
                x.in_gen@.len(),
                x.in_proc@.len(),
            ),
    {
        state.sigma = state.sigma.minus(e);
        state.clock = state.clock.saturating_add(e);
        state.n_gen = state.n_gen.saturating_add(x.in_gen.len() as u64);
        state.n_proc = state.n_proc.saturating_add(x.in_proc.len() as u64);
    }

    /// The state after one step: internal transition when imminent, then the
    /// arrivals as an external transition with no time elapsed; an external
    /// transition alone when only jobs arrived.
    pub open spec fn transition_spec(s: TransducerState, imminent: bool, e: u64, n_gen: nat, n_proc: nat) -> TransducerState {
        if imminent {
            if n_gen + n_proc > 0 {
                Self::ext_spec(Self::int_spec(s), 0, n_gen, n_proc)
            } else {
                Self::int_spec(s)
            }
        } else if n_gen + n_proc > 0 {
            Self::ext_spec(s, e, n_gen, n_proc)
        } else {
            s
        }
    }

    /// The report given in one step, if the window closed in it.
    pub open spec fn step_report_spec(s: TransducerState, imminent: bool) -> Option<TransducerReport> {
        if imminent {
            let t = Self::int_spec(s);
            Some(Self::report_spec(t.n_gen, t.n_proc, t.clock))
        } else {
            None
        }
    }

    /// The output phase of a step: an imminent transducer sends stop.
    pub fn output(&mut self, imminent: bool)
        requires
            old(self).wf(),
            old(self).output.out_stop@.len() == 0,
        ensures
            final(self).wf(),
            final(self).state == old(self).state,
            final(self).input.in_gen@ == old(self).input.in_gen@,
            final(self).input.in_proc@ == old(self).input.in_proc@,
            final(self).output.out_stop@ == (if imminent { seq![true] } else { Seq::<bool>::empty() }),
    {
        if imminent {
            Self::lambda(&self.state, &mut self.output);
        }
    }

    /// The transition phase of a step, `e` after the last transition; the
    /// ports are emptied afterwards. Returns the report when the window closed.
    pub fn transition(&mut self, imminent: bool, e: u64) -> (r: Option<TransducerReport>)
        requires
            old(self).wf(),
            imminent ==> old(self).state.sigma is Finite,
            old(self).state.sigma matches Time::Finite(s) ==> e <= s,
        ensures
            final(self).wf(),
            final(self).quiet(),
            final(self).state == Self::transition_spec(
                old(self).state,
                imminent,
                e,
                old(self).input.in_gen@.len(),
                old(self).input.in_proc@.len(),
            ),
            r == Self::step_report_spec(old(self).state, imminent),
    {
        let has_input = !self.input.in_gen.is_empty() || !self.input.in_proc.is_empty();
        let mut report: Option<TransducerReport> = None;
        if imminent {
            report = Some(Self::delta_int(&mut self.state));
            if has_input {
                Self::delta_ext(&mut self.state, 0, &self.input);
            }
        } else if has_input {
            Self::delta_ext(&mut self.state, e, &self.input);
        }
        self.input.in_gen.clear();
        self.input.in_proc.clear();
        self.output.out_stop.clear();
        report
    }
}

/// The sum of `xs`.
pub open spec fn sum_of(xs: Seq<int>) -> int
    decreases xs.len(),
{
    if xs.len() == 0 {
        0
    } else {
        sum_of(xs.drop_last()) + xs.last()
    }
}

/// The state after external transitions in order, the `i`-th after `es[i]`
/// elapsed with `gens[i]` generated and `procs[i]` processed jobs arriving.
pub open spec fn ext_run(s: TransducerState, es: Seq<int>, gens: Seq<int>, procs: Seq<int>) -> TransducerState
    decreases es.len(),
{
    if es.len() == 0 || gens.len() == 0 || procs.len() == 0 {
        s
    } else {
        Transducer::ext_spec(
            ext_run(s, es.drop_last(), gens.drop_last(), procs.drop_last()),
            es.last() as u64,
            gens.last() as nat,
            procs.last() as nat,
        )
    }
}

/// Over a run of external transitions from a fresh transducer, its clock is
/// the sum of the elapsed times, and its counters are the numbers of jobs
/// that arrived on each input, as long as those sums fit in a `u64`.
pub proof fn lemma_counts_accumulate(w: u64, es: Seq<int>, gens: Seq<int>, procs: Seq<int>)
    requires
        es.len() == gens.len() == procs.len(),
        forall|i: int| 0 <= i < es.len() ==> 0 <= #[trigger] es[i] && 0 <= gens[i] && 0 <= procs[i],
        sum_of(es) <= u64::MAX,
        sum_of(gens) <= u64::MAX,
        sum_of(procs) <= u64::MAX,
    ensures
        ext_run(TransducerState { sigma: Time::Finite(w), clock: 0, n_gen: 0, n_proc: 0 }, es, gens, procs).clock
            == sum_of(es),
        ext_run(TransducerState { sigma: Time::Finite(w), clock: 0, n_gen: 0, n_proc: 0 }, es, gens, procs).n_gen
            == sum_of(gens),
        ext_run(TransducerState { sigma: Time::Finite(w), clock: 0, n_gen: 0, n_proc: 0 }, es, gens, procs).n_proc
            == sum_of(procs),
    decreases es.len(),
{
    if es.len() > 0 {
        let n = es.len() - 1;
        assert forall|i: int| 0 <= i < es.drop_last().len() implies 0 <= #[trigger] es.drop_last()[i]
            && 0 <= gens.drop_last()[i] && 0 <= procs.drop_last()[i] by {
            assert(es.drop_last()[i] == es[i]);
            assert(0 <= es[i] && 0 <= gens[i] && 0 <= procs[i]);
        }
        assert(0 <= es[n] && 0 <= gens[n] && 0 <= procs[n]);
        lemma_counts_accumulate(w, es.drop_last(), gens.drop_last(), procs.drop_last());
    }
}

} // verus!
