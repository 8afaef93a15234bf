use vstd::prelude::*;
use crate::port::Port;
use crate::processor::{JobArrival, Processor};
use crate::schedule::{Schedule, after_step, consistent, imminent, lemma_elapsed_within};
use crate::time::{Time, at_or_before, min_spec};
use crate::transducer::{Transducer, TransducerReport};

verus! {

pub struct PtInput {
    pub in_job: Port<usize>,
}

/// The processor and the transducer, fed from outside: jobs that arrive on
/// `in_job` go to the processor and are counted by the transducer, finished
/// jobs go to the transducer, and its stop signal leaves on the output port.
pub struct Pt {
    pub processor: Processor,
    pub transducer: Transducer,
    pub proc_sched: Schedule,
    pub trans_sched: Schedule,
    /// Jobs injected from outside since the last step.
    pub input: PtInput,
    /// The simulation clock: the time of the last step.
    pub clock: u64,
}

/// What happened in one step of a `Pt`.
#[derive(Clone, Copy, PartialEq, Eq, Structural, Debug)]
pub struct PtEvents {
    /// The job the processor finished and sent.
    pub job_done: Option<usize>,
    /// What became of the job that reached the processor.
    pub arrival: JobArrival,
    /// The transducer's report, when its window closed.
    pub report: Option<TransducerReport>,
    /// Whether the stop signal left the model.
    pub stop_sent: bool,
}

impl Pt {
    pub open spec fn wf(&self) -> bool {
        &&& self.processor.wf() && self.processor.quiet()
        &&& self.transducer.wf() && self.transducer.quiet()
        &&& self.input.in_job.wf() && self.input.in_job.cap() == 1
        &&& consistent(self.proc_sched, self.processor.state.sigma)
        &&& consistent(self.trans_sched, self.transducer.state.sigma)
        &&& self.proc_sched.t_last <= self.clock
        &&& self.trans_sched.t_last <= self.clock
        &&& at_or_before(self.clock, self.next_spec())
    }

    /// The time of the next event of any leaf.
    pub open spec fn next_spec(&self) -> Time {
        min_spec(self.proc_sched.t_next, self.trans_sched.t_next)
    }

    /// A step may happen at `t`: not before the clock, and not after the
    /// next scheduled event.
    pub open spec fn can_step(&self, t: u64) -> bool {
        &&& self.clock <= t
        &&& at_or_before(t, self.next_spec())
    }

    /// The processor's job sent in a step at `t`.
    pub open spec fn proc_out(&self, t: u64) -> Seq<usize> {
        match (imminent(self.proc_sched, t), self.processor.state.job) {
            (true, Some(j)) => seq![j],
            _ => Seq::empty(),
        }
    }

    /// The model after a step at `t`: the injected jobs and the outputs of
    /// the imminent leaves travel along the couplings, then every leaf with
    /// an event or an input makes its transition.
    pub open spec fn step_spec(&self, t: u64, r: &Pt) -> bool {
        let pi = imminent(self.proc_sched, t);
        let ti = imminent(self.trans_sched, t);
        let jobs = self.input.in_job@;
        let t_proc = self.proc_out(t);
        &&& r.processor.state == Processor::transition_spec(
            self.processor.state,
            pi,
            (t - self.proc_sched.t_last) as u64,
            jobs,
        )
        &&& r.transducer.state == Transducer::transition_spec(
            self.transducer.state,
            ti,
            (t - self.trans_sched.t_last) as u64,
            jobs.len(),
            t_proc.len(),
        )
        &&& r.proc_sched == after_step(self.proc_sched, pi || jobs.len() > 0, t, r.processor.state.sigma)
        &&& r.trans_sched == after_step(
            self.trans_sched,
            ti || jobs.len() + t_proc.len() > 0,
            t,
            r.transducer.state.sigma,
        )
        &&& r.input.in_job@.len() == 0
        &&& r.input.in_job.cap() == self.input.in_job.cap()
    }

    /// What a step at `t` reports.
    pub open spec fn events_spec(&self, t: u64) -> PtEvents {
        PtEvents {
            job_done: Processor::finished_spec(self.processor.state, imminent(self.proc_sched, t)),
            arrival: Processor::step_arrival_spec(
                self.processor.state,
                imminent(self.proc_sched, t),
                self.input.in_job@,
            ),
            report: Transducer::step_report_spec(self.transducer.state, imminent(self.trans_sched, t)),
            stop_sent: imminent(self.trans_sched, t),
        }
    }

    /// Couples the two models, both starting at `t_start`, with an input port
    /// that holds one job.
    pub fn new(processor: Processor, transducer: Transducer, t_start: u64) -> (r: Pt)
        requires
            processor.wf() && processor.quiet(),
            transducer.wf() && transducer.quiet(),
        ensures
            r.wf(),
            r.clock == t_start,
            r.processor.state == processor.state,
            r.transducer.state == transducer.state,
            r.input.in_job@.len() == 0,
            r.input.in_job.cap() == 1,
    {
        let proc_sched = Schedule::new(t_start, Processor::ta(&processor.state));
        let trans_sched = Schedule::new(t_start, Transducer::ta(&transducer.state));
        Pt {
            processor,
            transducer,
            proc_sched,
            trans_sched,
            input: PtInput { in_job: Port::with_capacity(1) },
            clock: t_start,
        }
    }

    /// The time of the next scheduled event.
    pub fn next_time(&self) -> (r: Time)
        ensures
            r == self.next_spec(),
    {
        self.proc_sched.t_next.min(self.trans_sched.t_next)
    }

    /// One simulation step at `t`: at the next scheduled event, or earlier
    /// when a job was injected.
    pub fn step(&mut self, t: u64) -> (r: PtEvents)
        requires
            old(self).wf(),
            old(self).can_step(t),
        ensures
            final(self).wf(),
            old(self).step_spec(t, final(self)),
            r == old(self).events_spec(t),
            final(self).clock == t,
    {
        let ghost s0 = *self;
        let pi = self.proc_sched.is_imminent(t);
        let ti = self.trans_sched.is_imminent(t);
        proof {
            lemma_elapsed_within(self.proc_sched, self.processor.state.sigma, t);
            lemma_elapsed_within(self.trans_sched, self.transducer.state.sigma, t);
        }
        // output phase
        self.processor.output(pi);
        self.transducer.output(ti);
        // couplings
        proof {
            self.processor.input.in_job.lemma_wf();
            self.transducer.input.in_gen.lemma_wf();
            self.transducer.input.in_proc.lemma_wf();
            self.input.in_job.lemma_wf();
        }
        self.processor.input.in_job.extend_from(&self.input.in_job);
        self.transducer.input.in_gen.extend_from(&self.input.in_job);
        self.transducer.input.in_proc.extend_from(&self.processor.output.out_job);
        let stop_sent = !self.transducer.output.out_stop.is_empty();
        assert(self.processor.input.in_job@ =~= s0.input.in_job@);
        assert(self.transducer.input.in_gen@ =~= s0.input.in_job@);
        assert(self.transducer.input.in_proc@ =~= s0.proc_out(t));
        let p_in = !self.processor.input.in_job.is_empty();
        let t_in = !self.transducer.input.in_gen.is_empty() || !self.transducer.input.in_proc.is_empty();
        // transitions
        let ep = self.proc_sched.elapsed(t);
        let et = self.trans_sched.elapsed(t);
        let (job_done, arrival) = self.processor.transition(pi, ep);
        let report = self.transducer.transition(ti, et);
        self.proc_sched.update(pi || p_in, t, Processor::ta(&self.processor.state));
        self.trans_sched.update(ti || t_in, t, Transducer::ta(&self.transducer.state));
        self.input.in_job.clear();
        self.clock = t;
        PtEvents { job_done, arrival, report, stop_sent }
    }
}

} // verus!
