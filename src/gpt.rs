use vstd::prelude::*;
use crate::generator::Generator;
use crate::processor::{JobArrival, Processor};
use crate::schedule::{
    Schedule, after_step, consistent, imminent, lemma_elapsed_within, lemma_imminent_iff_elapsed,
};
use crate::time::{Time, at_or_before, min_spec};
use crate::transducer::{Transducer, TransducerReport};

verus! {

/// The closed experimental frame: the generator feeds jobs to the processor
/// and to the transducer, the processor feeds finished jobs to the
/// transducer, and the transducer's stop signal goes back to the generator.
/// The nested frame (generator and transducer in one coupled model, the
/// processor beside it) flattens to these same couplings.
pub struct Gpt {
    pub generator: Generator,
    pub processor: Processor,
    pub transducer: Transducer,
    pub gen_sched: Schedule,
    pub proc_sched: Schedule,
    pub trans_sched: Schedule,
    /// The simulation clock: the time of the last step.
    pub clock: u64,
}

/// What happened in one step of a `Gpt`.
#[derive(Clone, Copy, PartialEq, Eq, Structural, Debug)]
pub struct GptEvents {
    /// The job the generator sent.
    pub job_sent: Option<usize>,
    /// The job the processor finished and sent.
    pub job_done: Option<usize>,
    /// What became of the job that reached the processor.
    pub arrival: JobArrival,
    /// The transducer's report, when its window closed.
    pub report: Option<TransducerReport>,
}

impl Gpt {
    pub open spec fn wf(&self) -> bool {
        &&& self.generator.wf() && self.generator.quiet()
        &&& self.processor.wf() && self.processor.quiet()
        &&& self.transducer.wf() && self.transducer.quiet()
        &&& consistent(self.gen_sched, self.generator.state.sigma)
        &&& consistent(self.proc_sched, self.processor.state.sigma)
        &&& consistent(self.trans_sched, self.transducer.state.sigma)
        &&& self.gen_sched.t_last <= self.clock
        &&& self.proc_sched.t_last <= self.clock
        &&& self.trans_sched.t_last <= self.clock
        &&& at_or_before(self.clock, self.next_spec())
    }

    /// The time of the next event of any leaf.
    pub open spec fn next_spec(&self) -> Time {
        min_spec(min_spec(self.gen_sched.t_next, self.proc_sched.t_next), self.trans_sched.t_next)
    }

    /// A step may happen at `t`: not before the clock, and not after the
    /// next scheduled event.
    pub open spec fn can_step(&self, t: u64) -> bool {
        &&& self.clock <= t
        &&& at_or_before(t, self.next_spec())
    }

    /// The generator's job sent in a step at `t`.
    pub open spec fn gen_out(&self, t: u64) -> Seq<usize> {
        if imminent(self.gen_sched, t) {
            seq![self.generator.state.count]
        } else {
            Seq::empty()
        }
    }

    /// The processor's job sent in a step at `t`.
    pub open spec fn proc_out(&self, t: u64) -> Seq<usize> {
        match (imminent(self.proc_sched, t), self.processor.state.job) {
            (true, Some(j)) => seq![j],
            _ => Seq::empty(),
        }
    }

    /// The transducer's stop signal sent in a step at `t`.
    pub open spec fn trans_out(&self, t: u64) -> Seq<bool> {
        if imminent(self.trans_sched, t) {
            seq![true]
        } else {
            Seq::empty()
        }
    }

    /// The frame after a step at `t`: outputs of the imminent leaves travel
    /// along the couplings, then every leaf with an event or an input makes
    /// its transition.
    pub open spec fn step_spec(&self, t: u64, r: &Gpt) -> bool {
        let gi = imminent(self.gen_sched, t);
        let pi = imminent(self.proc_sched, t);
        let ti = imminent(self.trans_sched, t);
        let g_in = self.trans_out(t);
        let p_in = self.gen_out(t);
        let t_gen = self.gen_out(t);
        let t_proc = self.proc_out(t);
        &&& r.generator.state == Generator::transition_spec(
            self.generator.state,
            gi,
            (t - self.gen_sched.t_last) as u64,
            g_in,
        )
        &&& r.processor.state == Processor::transition_spec(
            self.processor.state,
            pi,
            (t - self.proc_sched.t_last) as u64,
            p_in,
        )
        &&& r.transducer.state == Transducer::transition_spec(
            self.transducer.state,
            ti,
            (t - self.trans_sched.t_last) as u64,
            t_gen.len(),
            t_proc.len(),
        )
        &&& r.gen_sched == after_step(self.gen_sched, gi || g_in.len() > 0, t, r.generator.state.sigma)
        &&& r.proc_sched == after_step(self.proc_sched, pi || p_in.len() > 0, t, r.processor.state.sigma)
        &&& r.trans_sched == after_step(
            self.trans_sched,
            ti || t_gen.len() + t_proc.len() > 0,
            t,
            r.transducer.state.sigma,
        )
    }

    /// What a step at `t` reports.
    pub open spec fn events_spec(&self, t: u64) -> GptEvents {
        GptEvents {
            job_sent: if imminent(self.gen_sched, t) {
                Some(self.generator.state.count)
            } else {
                None
            },
            job_done: Processor::finished_spec(self.processor.state, imminent(self.proc_sched, t)),
            arrival: Processor::step_arrival_spec(
                self.processor.state,
                imminent(self.proc_sched, t),
                self.gen_out(t),
            ),
            report: Transducer::step_report_spec(self.transducer.state, imminent(self.trans_sched, t)),
        }
    }

    /// Couples the three models, all starting at `t_start`.
    pub fn new(generator: Generator, processor: Processor, transducer: Transducer, t_start: u64) -> (r: Gpt)
        requires
            generator.wf() && generator.quiet(),
            processor.wf() && processor.quiet(),
            transducer.wf() && transducer.quiet(),
        ensures
            r.wf(),
            r.clock == t_start,
            r.generator.state == generator.state,
            r.processor.state == processor.state,
            r.transducer.state == transducer.state,
            r.gen_sched.t_last == t_start,
            r.proc_sched.t_last == t_start,
            r.trans_sched.t_last == t_start,
    {
        let gen_sched = Schedule::new(t_start, Generator::ta(&generator.state));
        let proc_sched = Schedule::new(t_start, Processor::ta(&processor.state));
        let trans_sched = Schedule::new(t_start, Transducer::ta(&transducer.state));
        Gpt { generator, processor, transducer, gen_sched, proc_sched, trans_sched, clock: t_start }
    }

    /// The time of the next scheduled event.
    pub fn next_time(&self) -> (r: Time)
        ensures
            r == self.next_spec(),
    {
        self.gen_sched.t_next.min(self.proc_sched.t_next).min(self.trans_sched.t_next)
    }

    /// One simulation step at `t`.
    pub fn step(&mut self, t: u64) -> (r: GptEvents)
        requires
            old(self).wf(),
            old(self).can_step(t),
        ensures
            final(self).wf(),
            old(self).step_spec(t, final(self)),
            r == old(self).events_spec(t),
            final(self).clock == t,
    {
        let gi = self.gen_sched.is_imminent(t);
        let pi = self.proc_sched.is_imminent(t);
        let ti = self.trans_sched.is_imminent(t);
        let ghost s0 = *self;
        let job_sent = if gi {
            Some(self.generator.state.count)
        } else {
            None
        };
        proof {
            lemma_elapsed_within(self.gen_sched, self.generator.state.sigma, t);
            lemma_elapsed_within(self.proc_sched, self.processor.state.sigma, t);
            lemma_elapsed_within(self.trans_sched, self.transducer.state.sigma, t);
        }
        // output phase
        self.generator.output(gi);
        self.processor.output(pi);
        self.transducer.output(ti);
        // couplings
        proof {
            self.processor.input.in_job.lemma_wf();
            self.transducer.input.in_gen.lemma_wf();
            self.transducer.input.in_proc.lemma_wf();
            self.generator.input.in_stop.lemma_wf();
        }
        self.processor.input.in_job.extend_from(&self.generator.output.out_job);
        self.transducer.input.in_gen.extend_from(&self.generator.output.out_job);
        self.transducer.input.in_proc.extend_from(&self.processor.output.out_job);
        self.generator.input.in_stop.extend_from(&self.transducer.output.out_stop);
        assert(self.processor.input.in_job@ =~= s0.gen_out(t));
        assert(self.transducer.input.in_gen@ =~= s0.gen_out(t));
        assert(self.transducer.input.in_proc@ =~= s0.proc_out(t));
        assert(self.generator.input.in_stop@ =~= s0.trans_out(t));
        let g_in = !self.generator.input.in_stop.is_empty();
        let p_in = !self.processor.input.in_job.is_empty();
        let t_in = !self.transducer.input.in_gen.is_empty() || !self.transducer.input.in_proc.is_empty();
        // transitions
        let eg = self.gen_sched.elapsed(t);
        let ep = self.proc_sched.elapsed(t);
        let et = self.trans_sched.elapsed(t);
        self.generator.transition(gi, eg);
        let (job_done, arrival) = self.processor.transition(pi, ep);
        let report = self.transducer.transition(ti, et);
        self.gen_sched.update(gi || g_in, t, Generator::ta(&self.generator.state));
        self.proc_sched.update(pi || p_in, t, Processor::ta(&self.processor.state));
        self.trans_sched.update(ti || t_in, t, Transducer::ta(&self.transducer.state));
        self.clock = t;
        GptEvents { job_sent, job_done, arrival, report }
    }

    /// Each frame of `trace` is the one before it after one step, taken at
    /// that frame's next event time, which fell before `t_stop`.
    pub open spec fn is_run(trace: Seq<Gpt>, t_stop: u64) -> bool {
        forall|i: int|
            #![trigger trace[i + 1]]
            0 <= i < trace.len() - 1 ==> {
                &&& trace[i].next_spec() == Time::Finite(trace[i + 1].clock)
                &&& trace[i + 1].clock < t_stop
                &&& trace[i].step_spec(trace[i + 1].clock, &trace[i + 1])
            }
    }

    /// `s1` is `s0` after `n` such steps.
    pub open spec fn run_spec(s0: Gpt, t_stop: u64, n: nat, s1: Gpt) -> bool {
        exists|trace: Seq<Gpt>|
            {
                &&& #[trigger] trace.len() == n + 1
                &&& trace[0] == s0
                &&& trace.last() == s1
                &&& Self::is_run(trace, t_stop)
            }
    }

    /// Runs steps back to back while the next event falls before `t_stop`,
    /// at most `max_steps` of them; returns how many ran.
    pub fn simulate(&mut self, t_stop: u64, max_steps: u64) -> (n: u64)
        requires
            old(self).wf(),
        ensures
            final(self).wf(),
            n <= max_steps,
            final(self).clock >= old(self).clock,
            Self::run_spec(*old(self), t_stop, n as nat, *final(self)),
            n < max_steps ==> !(final(self).next_spec() matches Time::Finite(x) && x < t_stop),
    {
        let ghost s0 = *self;
        let ghost mut trace: Seq<Gpt> = seq![*self];
        let mut n: u64 = 0;
        loop
            invariant
                self.wf(),
                n <= max_steps,
                self.clock >= old(self).clock,
                s0 == *old(self),
                trace.len() == n + 1,
                trace[0] == s0,
                trace.last() == *self,
                Self::is_run(trace, t_stop),
            ensures
                self.wf(),
                n <= max_steps,
                self.clock >= old(self).clock,
                trace.len() == n + 1,
                trace[0] == s0,
                trace.last() == *self,
                Self::is_run(trace, t_stop),
                n < max_steps ==> !(self.next_spec() matches Time::Finite(x) && x < t_stop),
            decreases max_steps - n,
        {
            if n >= max_steps {
                break;
            }
            match self.next_time() {
                Time::Finite(t) => {
                    if t >= t_stop {
                        break;
                    }
                    self.step(t);
                    proof {
                        let old_trace = trace;
                        trace = trace.push(*self);
                        assert forall|i: int| 0 <= i < trace.len() - 1 implies {
                            &&& trace[i].next_spec() == Time::Finite(trace[i + 1].clock)
                            &&& trace[i + 1].clock < t_stop
                            &&& trace[i].step_spec(trace[i + 1].clock, &trace[i + 1])
                        } by {
                            if i < old_trace.len() - 1 {
                                assert(trace[i] == old_trace[i]);
                                assert(trace[i + 1] == old_trace[i + 1]);
                            }
                        }
                    }
                },
                Time::Infinite => {
                    break;
                },
            }
            n = n + 1;
        }
        assert(trace.len() == n as nat + 1);
        n
    }

    /// In a well-formed frame, a leaf is imminent at `t` exactly when the time
    /// elapsed since its last transition equals its time advance.
    pub proof fn lemma_imminence(&self, t: u64)
        requires
            self.wf(),
            self.clock <= t,
        ensures
            imminent(self.gen_sched, t) <==> self.generator.state.sigma == Time::Finite(
                (t - self.gen_sched.t_last) as u64,
            ),
            imminent(self.proc_sched, t) <==> self.processor.state.sigma == Time::Finite(
                (t - self.proc_sched.t_last) as u64,
            ),
            imminent(self.trans_sched, t) <==> self.transducer.state.sigma == Time::Finite(
                (t - self.trans_sched.t_last) as u64,
            ),
    {
        lemma_imminent_iff_elapsed(self.gen_sched, self.generator.state.sigma, t);
        lemma_imminent_iff_elapsed(self.proc_sched, self.processor.state.sigma, t);
        lemma_imminent_iff_elapsed(self.trans_sched, self.transducer.state.sigma, t);
    }
}

} // verus!
