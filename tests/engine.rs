use riscv_xdevs::generator::{Generator, GeneratorState};
use riscv_xdevs::gpt::Gpt;
use riscv_xdevs::processor::{JobArrival, Processor, ProcessorState};
use riscv_xdevs::pt::Pt;
use riscv_xdevs::time::Time;
use riscv_xdevs::transducer::{Ratio, Transducer, TransducerReport, TransducerState};

const SEC: u64 = 1_000_000;

fn frame() -> Gpt {
    Gpt::new(
        Generator::new(GeneratorState::new(SEC)),
        Processor::new(ProcessorState::new(2_100_000)),
        Transducer::new(TransducerState::new(10 * SEC)),
        0,
    )
}

#[test]
fn gpt_stop_at_window_end_quiesces_generator() {
    let mut m = frame();
    let mut sent = Vec::new();
    let mut reports = Vec::new();
    let mut done = Vec::new();
    let mut dropped = Vec::new();
    while let Time::Finite(t) = m.next_time() {
        if t >= 15 * SEC {
            break;
        }
        let ev = m.step(t);
        if let Some(j) = ev.job_sent {
            sent.push((t, j));
        }
        if let Some(r) = ev.report {
            reports.push((t, r));
        }
        if let Some(j) = ev.job_done {
            done.push((t, j));
        }
        if let JobArrival::Dropped(j) = ev.arrival {
            dropped.push(j);
        }
    }
    let expected: Vec<(u64, usize)> = (0..=10).map(|n| (n as u64 * SEC, n)).collect();
    assert_eq!(sent, expected);
    assert_eq!(
        reports,
        vec![(
            10 * SEC,
            TransducerReport {
                acceptance: Ratio { num: 3, den: 10 },
                throughput: Ratio { num: 3, den: 10 * SEC },
            }
        )]
    );
    assert_eq!(done, vec![(2_100_000, 0), (5_100_000, 3), (8_100_000, 6), (11_100_000, 9)]);
    assert_eq!(dropped, vec![1, 2, 4, 5, 7, 8, 10]);
    assert_eq!(m.generator.state.sigma, Time::Infinite);
    assert_eq!(m.next_time(), Time::Infinite);
}

#[test]
fn gpt_simulate_runs_to_quiescence() {
    let mut m = frame();
    let n = m.simulate(15 * SEC, 1000);
    assert!(n < 1000);
    assert_eq!(m.generator.state.count, 11);
    assert_eq!(m.generator.state.sigma, Time::Infinite);
    assert_eq!(m.transducer.state.n_proc, 4);
    assert_eq!(m.transducer.state.n_gen, 11);
    assert_eq!(m.clock, 11_100_000);
}

#[test]
fn gpt_simulate_stops_at_horizon() {
    let mut m = frame();
    m.simulate(3 * SEC, 1000);
    assert_eq!(m.clock, 2_100_000);
    assert_eq!(m.next_time(), Time::Finite(3 * SEC));
    assert_eq!(m.generator.state.count, 3);
}

#[test]
fn gpt_simulate_respects_step_budget() {
    let mut m = frame();
    assert_eq!(m.simulate(15 * SEC, 2), 2);
    assert_eq!(m.clock, SEC);
}

#[test]
fn generator_job_n_at_n_periods() {
    let period: u64 = 250_000;
    let mut m = Gpt::new(
        Generator::new(GeneratorState::new(period)),
        Processor::new(ProcessorState::new(1)),
        Transducer::new(TransducerState::new(100 * period)),
        0,
    );
    let mut n: usize = 0;
    while n < 20 {
        let Time::Finite(t) = m.next_time() else { panic!("no event") };
        let ev = m.step(t);
        if let Some(j) = ev.job_sent {
            assert_eq!(j, n);
            assert_eq!(t, n as u64 * period);
            n += 1;
        }
    }
}

#[test]
fn pt_injected_job_is_an_early_external_event() {
    let mut m = Pt::new(
        Processor::new(ProcessorState::new(2_100_000)),
        Transducer::new(TransducerState::new(10 * SEC)),
        0,
    );
    // an idle processor has nothing scheduled: only the window is pending
    assert_eq!(m.processor.state.sigma, Time::Infinite);
    assert_eq!(m.next_time(), Time::Finite(10 * SEC));
    // a job injected at 1.5 s, before the next scheduled event
    m.input.in_job.add_value(0).unwrap();
    assert!(m.input.in_job.add_value(1).is_err());
    let ev = m.step(1_500_000);
    assert_eq!(ev.arrival, JobArrival::Accepted(0));
    assert!(!ev.stop_sent);
    assert!(m.input.in_job.is_empty());
    assert_eq!(m.transducer.state.n_gen, 1);
    assert_eq!(m.transducer.state.sigma, Time::Finite(8_500_000));
    assert_eq!(m.next_time(), Time::Finite(3_600_000));
    let ev = m.step(3_600_000);
    assert_eq!(ev.job_done, Some(0));
    assert_eq!(m.transducer.state.n_proc, 1);
    let ev = m.step(10 * SEC);
    assert!(ev.stop_sent);
    assert_eq!(
        ev.report,
        Some(TransducerReport {
            acceptance: Ratio { num: 1, den: 1 },
            throughput: Ratio { num: 1, den: 10 * SEC },
        })
    );
    assert_eq!(m.next_time(), Time::Infinite);
}
