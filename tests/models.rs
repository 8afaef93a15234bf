use riscv_xdevs::generator::{Generator, GeneratorState};
use riscv_xdevs::port::{CapacityExceeded, Port};
use riscv_xdevs::processor::{JobArrival, Processor, ProcessorState};
use riscv_xdevs::time::Time;
use riscv_xdevs::transducer::{Ratio, Transducer, TransducerReport, TransducerState};

#[test]
fn port_zero_capacity_is_refused() {
    assert!(Port::<usize>::new(0).is_none());
    let p = Port::<usize>::new(3).unwrap();
    assert_eq!(p.capacity(), 3);
    assert!(p.is_empty());
}

#[test]
fn port_keeps_order_and_reports_overflow() {
    let mut p = Port::<usize>::with_capacity(2);
    assert_eq!(p.add_value(7), Ok(()));
    assert_eq!(p.add_value(9), Ok(()));
    assert_eq!(p.add_value(11), Err(CapacityExceeded));
    assert_eq!(p.get_values(), &[7, 9]);
    assert_eq!(p.last(), Some(9));
    p.clear();
    assert!(p.is_empty());
    assert_eq!(p.last(), None);
}

#[test]
fn port_extend_duplicates_and_drops_beyond_capacity() {
    let mut src = Port::<usize>::unbounded();
    for v in [1, 2, 3] {
        src.add_value(v).unwrap();
    }
    let mut a = Port::<usize>::with_capacity(2);
    a.add_value(0).unwrap();
    assert_eq!(a.extend_from(&src), 2);
    assert_eq!(a.get_values(), &[0, 1]);
    let mut b = Port::<usize>::with_capacity(5);
    assert_eq!(b.extend_from(&src), 0);
    assert_eq!(b.get_values(), &[1, 2, 3]);
    assert_eq!(src.len(), 3);
}

#[test]
fn time_arithmetic() {
    assert_eq!(Time::Finite(3).after(4), Time::Finite(7));
    assert_eq!(Time::Finite(1).after(u64::MAX), Time::Infinite);
    assert_eq!(Time::Infinite.after(4), Time::Infinite);
    assert_eq!(Time::Finite(3).min(Time::Finite(2)), Time::Finite(2));
    assert_eq!(Time::Infinite.min(Time::Finite(2)), Time::Finite(2));
    assert_eq!(Time::Finite(5).minus(2), Time::Finite(3));
    assert_eq!(Time::Infinite.minus(2), Time::Infinite);
    assert!(Time::Infinite.reaches(u64::MAX));
    assert!(!Time::Finite(4).reaches(5));
    assert!(Time::Infinite.is_infinite());
}

#[test]
fn generator_sends_count_then_waits_a_period() {
    let mut g = Generator::new(GeneratorState::new(1_000_000));
    assert_eq!(Generator::ta(&g.state), Time::Finite(0));
    Generator::lambda(&g.state, &mut g.output);
    assert_eq!(g.output.out_job.get_values(), &[0]);
    Generator::delta_int(&mut g.state);
    assert_eq!(g.state.count, 1);
    assert_eq!(Generator::ta(&g.state), Time::Finite(1_000_000));
}

#[test]
fn generator_stops_on_true_only() {
    let mut g = Generator::new(GeneratorState::new(1_000));
    Generator::delta_int(&mut g.state);
    g.input.in_stop.add_value(false).unwrap();
    Generator::delta_ext(&mut g.state, 400, &g.input);
    assert_eq!(g.state.sigma, Time::Finite(600));
    g.input.in_stop.clear();
    g.input.in_stop.add_value(true).unwrap();
    Generator::delta_ext(&mut g.state, 100, &g.input);
    assert_eq!(g.state.sigma, Time::Infinite);
}

#[test]
fn processor_accepts_when_idle_and_drops_when_busy() {
    let mut p = Processor::new(ProcessorState::new(2_100_000));
    Processor::delta_int(&mut p.state);
    assert_eq!(p.state.sigma, Time::Infinite);
    p.input.in_job.add_value(4).unwrap();
    assert_eq!(Processor::delta_ext(&mut p.state, 0, &p.input), JobArrival::Accepted(4));
    assert_eq!(p.state.job, Some(4));
    assert_eq!(p.state.sigma, Time::Finite(2_100_000));
    p.input.in_job.clear();
    p.input.in_job.add_value(5).unwrap();
    assert_eq!(Processor::delta_ext(&mut p.state, 1_000_000, &p.input), JobArrival::Dropped(5));
    assert_eq!(p.state.job, Some(4));
    assert_eq!(p.state.sigma, Time::Finite(1_100_000));
    Processor::lambda(&p.state, &mut p.output);
    assert_eq!(p.output.out_job.get_values(), &[4]);
    assert_eq!(Processor::delta_int(&mut p.state), Some(4));
    assert_eq!(p.state.job, None);
    assert_eq!(p.state.sigma, Time::Infinite);
}

#[test]
fn processor_without_input_reports_no_job() {
    let mut p = Processor::new(ProcessorState::new(10));
    assert_eq!(Processor::delta_ext(&mut p.state, 0, &p.input), JobArrival::NoJob);
    Processor::lambda(&p.state, &mut p.output);
    assert!(p.output.out_job.is_empty());
}

#[test]
fn transducer_reports_ratios() {
    let mut t = Transducer::new(TransducerState::new(10_000_000));
    t.input.in_gen.add_value(0).unwrap();
    t.input.in_gen.add_value(1).unwrap();
    t.input.in_proc.add_value(0).unwrap();
    Transducer::delta_ext(&mut t.state, 4_000_000, &t.input);
    assert_eq!(t.state.n_gen, 2);
    assert_eq!(t.state.n_proc, 1);
    assert_eq!(t.state.clock, 4_000_000);
    assert_eq!(t.state.sigma, Time::Finite(6_000_000));
    let r = Transducer::delta_int(&mut t.state);
    assert_eq!(t.state.clock, 10_000_000);
    assert_eq!(
        r,
        TransducerReport {
            acceptance: Ratio { num: 1, den: 2 },
            throughput: Ratio { num: 1, den: 10_000_000 },
        }
    );
    assert_eq!(t.state.sigma, Time::Infinite);
    Transducer::lambda(&t.state, &mut t.output);
    assert_eq!(t.output.out_stop.get_values(), &[true]);
}

#[test]
fn transducer_reports_zero_without_processed_jobs() {
    let mut t = Transducer::new(TransducerState::new(5));
    t.input.in_gen.add_value(0).unwrap();
    Transducer::delta_ext(&mut t.state, 2, &t.input);
    let r = Transducer::delta_int(&mut t.state);
    assert_eq!(r.acceptance, Ratio { num: 0, den: 1 });
    assert_eq!(r.throughput, Ratio { num: 0, den: 1 });
}

#[test]
fn new_processor_is_idle_with_nothing_scheduled() {
    let p = Processor::new(ProcessorState::new(2_100_000));
    assert_eq!(p.state.job, None);
    assert_eq!(p.state.time, 2_100_000);
    assert_eq!(Processor::ta(&p.state), Time::Infinite);
    assert_eq!(p.input.in_job.capacity(), 1);
    assert_eq!(p.output.out_job.capacity(), 1);
}

#[test]
fn model_ports_have_declared_capacities() {
    let g = Generator::new(GeneratorState::new(1));
    assert_eq!(g.input.in_stop.capacity(), 1);
    assert_eq!(g.output.out_job.capacity(), 1);
    let t = Transducer::new(TransducerState::new(1));
    assert_eq!(t.input.in_gen.capacity(), 2);
    assert_eq!(t.input.in_proc.capacity(), 1);
    assert_eq!(t.output.out_stop.capacity(), 1);
}

#[test]
fn transducer_accumulates_over_external_transitions() {
    let mut t = Transducer::new(TransducerState::new(10_000_000));
    t.input.in_gen.add_value(0).unwrap();
    Transducer::delta_ext(&mut t.state, 1_500_000, &t.input);
    t.input.in_gen.clear();
    t.input.in_gen.add_value(1).unwrap();
    t.input.in_gen.add_value(2).unwrap();
    t.input.in_proc.add_value(0).unwrap();
    Transducer::delta_ext(&mut t.state, 2_000_000, &t.input);
    t.input.in_gen.clear();
    t.input.in_proc.clear();
    t.input.in_proc.add_value(1).unwrap();
    Transducer::delta_ext(&mut t.state, 500_000, &t.input);
    assert_eq!(t.state.clock, 4_000_000);
    assert_eq!(t.state.n_gen, 3);
    assert_eq!(t.state.n_proc, 2);
    assert_eq!(t.state.sigma, Time::Finite(6_000_000));
}
