use vstd::prelude::*;
use crate::port::Port;
use crate::time::{Time, sub_spec};

verus! {

/// Works on at most one job at a time, for a fixed duration.
pub struct ProcessorState {
    pub sigma: Time,
    pub time: u64,
    pub job: Option<usize>,
}

impl ProcessorState {
    /// An idle processor, with nothing scheduled, that takes `time` for each
    /// job.
    pub fn new(time: u64) -> (r: Self)
        ensures
            r == (ProcessorState { sigma: Time::Infinite, time, job: None }),
    {
        ProcessorState { sigma: Time::Infinite, time, job: None }
    }
}

/// What became of the jobs that arrived in one external transition.
#[derive(Clone, Copy, PartialEq, Eq, Structural, Debug)]
pub enum JobArrival {
    /// No job arrived.
    NoJob,
    /// The processor was idle and took this job.
    Accepted(usize),
    /// The processor was busy and dropped this job.
    Dropped(usize),
}

pub struct ProcessorInput {
    pub in_job: Port<usize>,
}

pub struct ProcessorOutput {
    pub out_job: Port<usize>,
}

/// The processor model: its state and its ports.
pub struct Processor {
    pub state: ProcessorState,
    pub input: ProcessorInput,
    pub output: ProcessorOutput,
}

impl Processor {
    /// Both ports well formed; at most one job arrives per step.
    pub open spec fn wf(&self) -> bool {
        &&& self.input.in_job.wf() && self.input.in_job.cap() == 1
        &&& self.output.out_job.wf()
    }

    pub open spec fn quiet(&self) -> bool {
        &&& self.input.in_job@.len() == 0
        &&& self.output.out_job@.len() == 0
    }

    pub fn new(state: ProcessorState) -> (r: Processor)
        ensures
            r.wf(),
            r.quiet(),
            r.state == state,
            r.input.in_job.cap() == 1,
            r.output.out_job.cap() == 1,
    {
        Processor {
            state,
            input: ProcessorInput { in_job: Port::with_capacity(1) },
            output: ProcessorOutput { out_job: Port::with_capacity(1) },
        }
    }

    pub open spec fn int_spec(s: ProcessorState) -> ProcessorState {
        ProcessorState { sigma: Time::Infinite, job: None, ..s }
    }

    /// An idle processor takes the job that arrived; a busy one drops it and
    /// keeps its own job and schedule.
    pub open spec fn ext_spec(s: ProcessorState, e: u64, jobs: Seq<usize>) -> ProcessorState {
        if jobs.len() > 0 && s.job is None {
            ProcessorState { sigma: Time::Finite(s.time), job: Some(jobs.last()), ..s }
        } else {
            ProcessorState { sigma: sub_spec(s.sigma, e), ..s }
        }
    }

    pub open spec fn arrival_spec(s: ProcessorState, jobs: Seq<usize>) -> JobArrival {
        if jobs.len() == 0 {
            JobArrival::NoJob
        } else if s.job is None {
            JobArrival::Accepted(jobs.last())
        } else {
            JobArrival::Dropped(jobs.last())
        }
    }

    /// Finishes the job in hand, if any, and goes idle; returns that job.
    pub fn delta_int(state: &mut ProcessorState) -> (r: Option<usize>)
        ensures
            *final(state) == Self::int_spec(*old(state)),
            r == old(state).job,
    {
        state.sigma = Time::Infinite;
        let done = state.job;
        state.job = None;
        done
    }

    /// Sends the job in hand, if any.
    pub fn lambda(state: &ProcessorState, output: &mut ProcessorOutput)
        requires
            old(output).out_job.wf(),
            old(output).out_job@.len() == 0,
        ensures
            final(output).out_job.wf(),
            state.job matches Some(j) ==> final(output).out_job@ == seq![j],
            state.job is None ==> final(output).out_job@ == old(output).out_job@,
    {
        if let Some(job) = state.job {
            proof {
                output.out_job.lemma_wf();
            }
            let r = output.out_job.add_value(job);
            assert(r is Ok);
        }
    }

    pub fn ta(state: &ProcessorState) -> (r: Time)
        ensures
            r == state.sigma,
    {
        state.sigma
    }

    /// Takes `e` off the time advance, then accepts or drops the arriving job.
    pub fn delta_ext(state: &mut ProcessorState, e: u64, x: &ProcessorInput) -> (r: JobArrival)
        requires
            old(state).sigma matches Time::Finite(s) ==> e <= s,
            x.in_job@.len() <= 1,
        ensures
            *final(state) == Self::ext_spec(*old(state), e, x.in_job@),
            r == Self::arrival_spec(*old(state), x.in_job@),
    {
        state.sigma = state.sigma.minus(e);
        match x.in_job.last() {
            None => JobArrival::NoJob,
            Some(job) => {
                if state.job.is_none() {
                    state.job = Some(job);
                    state.sigma = Time::Finite(state.time);
                    JobArrival::Accepted(job)
                } else {
                    JobArrival::Dropped(job)
                }
            },
        }
    }

    /// The state after one step: internal transition when imminent, then the
    /// arrivals as an external transition with no time elapsed; an external
    /// transition alone when only jobs arrived.
    pub open spec fn transition_spec(s: ProcessorState, imminent: bool, e: u64, jobs: Seq<usize>) -> ProcessorState {
        if imminent {
            if jobs.len() > 0 {
                Self::ext_spec(Self::int_spec(s), 0, jobs)
            } else {
                Self::int_spec(s)
            }
        } else if jobs.len() > 0 {
            Self::ext_spec(s, e, jobs)
        } else {
            s
        }
    }

    /// The job finished in one step, if any.
    pub open spec fn finished_spec(s: ProcessorState, imminent: bool) -> Option<usize> {
        if imminent {
            s.job
        } else {
            None
        }
    }

    /// What became of the jobs that arrived in one step.
    pub open spec fn step_arrival_spec(s: ProcessorState, imminent: bool, jobs: Seq<usize>) -> JobArrival {
        if imminent {
            Self::arrival_spec(Self::int_spec(s), jobs)
        } else {
            Self::arrival_spec(s, jobs)
        }
    }

    /// The output phase of a step: an imminent processor sends its job.
    pub fn output(&mut self, imminent: bool)
        requires
            old(self).wf(),
            old(self).output.out_job@.len() == 0,
        ensures
            final(self).wf(),
            final(self).state == old(self).state,
            final(self).input.in_job@ == old(self).input.in_job@,
            final(self).output.out_job@ == (match (imminent, old(self).state.job) {
                (true, Some(j)) => seq![j],
                _ => Seq::<usize>::empty(),
            }),
    {
        if imminent {
            Self::lambda(&self.state, &mut self.output);
        }
    }

    /// The transition phase of a step, `e` after the last transition; the
    /// ports are emptied afterwards. Returns the finished job and what became
    /// of the arrivals.
    pub fn transition(&mut self, imminent: bool, e: u64) -> (r: (Option<usize>, JobArrival))
        requires
            old(self).wf(),
            old(self).state.sigma matches Time::Finite(s) ==> e <= s,
        ensures
            final(self).wf(),
            final(self).quiet(),
            final(self).input.in_job.cap() == old(self).input.in_job.cap(),
            final(self).output.out_job.cap() == old(self).output.out_job.cap(),
            final(self).state == Self::transition_spec(old(self).state, imminent, e, old(self).input.in_job@),
            r.0 == Self::finished_spec(old(self).state, imminent),
            r.1 == Self::step_arrival_spec(old(self).state, imminent, old(self).input.in_job@),
    {
        proof {
            self.input.in_job.lemma_wf();
        }
        let has_input = !self.input.in_job.is_empty();
        let mut done: Option<usize> = None;
        let mut arrival = JobArrival::NoJob;
        if imminent {
            done = Self::delta_int(&mut self.state);
            if has_input {
                arrival = Self::delta_ext(&mut self.state, 0, &self.input);
            }
        } else if has_input {
            arrival = Self::delta_ext(&mut self.state, e, &self.input);
        }
        self.input.in_job.clear();
        self.output.out_job.clear();
        (done, arrival)
    }
}

/// A job that reaches a busy processor is dropped: the job in hand and its
/// schedule stay as they were, but for the time elapsed.
pub proof fn lemma_busy_drops(s: ProcessorState, e: u64, jobs: Seq<usize>)
    requires
        s.job is Some,
        jobs.len() == 1,
    ensures
        Processor::ext_spec(s, e, jobs) == (ProcessorState { sigma: sub_spec(s.sigma, e), ..s }),
        Processor::arrival_spec(s, jobs) == JobArrival::Dropped(jobs[0]),
{
}

} // verus!
