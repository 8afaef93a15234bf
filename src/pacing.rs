use vstd::prelude::*;
use crate::port::Port;
use crate::time::MICROS_PER_SEC;

verus! {

/// `x`, held at the largest `u64`.
pub open spec fn clamp_u64(x: int) -> u64 {
    if x > u64::MAX {
        u64::MAX
    } else {
        x as u64
    }
}

/// The tick at which `d` microseconds have passed on a clock of `freq`
/// ticks per second.
pub open spec fn ticks_of(d: u64, freq: u64) -> u64 {
    clamp_u64((d as int * freq as int) / (MICROS_PER_SEC as int))
}

/// The first tick at which `d` microseconds have passed on a clock of
/// `freq` ticks per second: `d * freq / 10^6`, rounded up.
pub open spec fn ticks_ceil_of(d: u64, freq: u64) -> u64 {
    clamp_u64((d as int * freq as int + MICROS_PER_SEC as int - 1) / (MICROS_PER_SEC as int))
}

/// The microseconds that `ticks` ticks of a clock of `freq` ticks per second
/// take, rounded down.
pub open spec fn micros_of(ticks: u64, freq: u64) -> u64 {
    clamp_u64((ticks as int * MICROS_PER_SEC as int) / (freq as int))
}

/// The tick count reached after `d` microseconds of virtual time.
pub fn time_to_ticks(d: u64, freq: u64) -> (r: u64)
    ensures
        r == ticks_of(d, freq),
{
    assert(d as int * freq as int <= u64::MAX as int * u64::MAX as int) by (nonlinear_arith);
    let x: u128 = (d as u128) * (freq as u128) / (MICROS_PER_SEC as u128);
    if x > u64::MAX as u128 {
        u64::MAX
    } else {
        x as u64
    }
}

/// The microseconds of virtual time that `ticks` ticks stand for.
pub fn ticks_to_time(ticks: u64, freq: u64) -> (r: u64)
    requires
        freq > 0,
    ensures
        r == micros_of(ticks, freq),
{
    assert(ticks as int * 1_000_000 <= u64::MAX as int * 1_000_000) by (nonlinear_arith);
    let x: u128 = (ticks as u128) * (MICROS_PER_SEC as u128) / (freq as u128);
    if x > u64::MAX as u128 {
        u64::MAX
    } else {
        x as u64
    }
}

/// The tick at which a wait for virtual time `t_next` ends, when tick zero
/// stands for virtual time `t_start`: the first tick whose own time is at or
/// after `t_next`.
pub fn target_tick(t_start: u64, t_next: u64, freq: u64) -> (r: u64)
    requires
        t_start <= t_next,
        freq > 0,
    ensures
        r == ticks_ceil_of((t_next - t_start) as u64, freq),
        r < u64::MAX ==> r as int * MICROS_PER_SEC as int >= (t_next - t_start) * freq,
        r < u64::MAX ==> micros_of(r, freq) >= t_next - t_start,
{
    let d = t_next - t_start;
    assert(d as int * freq as int <= u64::MAX as int * u64::MAX as int) by (nonlinear_arith);
    let x: u128 = ((d as u128) * (freq as u128) + (MICROS_PER_SEC as u128 - 1)) / (MICROS_PER_SEC as u128);
    let r = if x > u64::MAX as u128 {
        u64::MAX
    } else {
        x as u64
    };
    proof {
        if r < u64::MAX {
            lemma_ceil_reached(r, d, freq);
        }
    }
    r
}

/// The rounded-up tick count covers `d` microseconds, and so does any later
/// reading.
proof fn lemma_ceil_reached(now: u64, d: u64, freq: u64)
    requires
        freq > 0,
        now >= (d as int * freq as int + 999_999) / 1_000_000,
    ensures
        now as int * 1_000_000 >= d as int * freq as int,
        micros_of(now, freq) >= d,
{
    let m: int = 1_000_000;
    let x = d as int * freq as int + 999_999;
    vstd::arithmetic::div_mod::lemma_fundamental_div_mod(x, m);
    assert(x % m < m);
    assert(m * (x / m) > x - m);
    assert(now as int * m >= m * (x / m)) by (nonlinear_arith)
        requires
            now >= x / m,
            m > 0,
    ;
    let f = freq as int;
    let y = now as int * m;
    vstd::arithmetic::div_mod::lemma_fundamental_div_mod(y, f);
    assert(y / f >= d) by (nonlinear_arith)
        requires
            y == f * (y / f) + (y % f),
            0 <= y % f < f,
            y >= d as int * f,
            f > 0,
    ;
}

/// The real delay, in microseconds, of a blocking wait from virtual time
/// `last` to `t_next` at `scale` real microseconds per virtual one: none when
/// `t_next` is not after `last`, and held at the largest `u32`, the range of
/// the delay primitive.
pub open spec fn delay_spec(last: u64, t_next: u64, scale: u64) -> u32 {
    if t_next <= last {
        0
    } else {
        let x = (t_next - last) * scale;
        if x > u32::MAX {
            u32::MAX
        } else {
            x as u32
        }
    }
}

/// The delay that a blocking wait from `last` to `t_next` takes.
pub fn delay_micros(last: u64, t_next: u64, scale: u64) -> (r: u32)
    ensures
        r == delay_spec(last, t_next, scale),
{
    if t_next <= last {
        return 0;
    }
    let d = t_next - last;
    assert(d as int * scale as int <= u64::MAX as int * u64::MAX as int) by (nonlinear_arith);
    let x: u128 = (d as u128) * (scale as u128);
    if x > u32::MAX as u128 {
        u32::MAX
    } else {
        x as u32
    }
}

/// What a paced wait does next.
#[derive(Clone, Copy, PartialEq, Eq, Structural, Debug)]
pub enum WaitStep {
    /// The target tick is not reached: keep waiting.
    Wait,
    /// The target tick is reached, this many microseconds late.
    Resume { jitter_us: u64 },
    /// The target tick is reached, later than the bound allows.
    JitterExceeded { jitter_us: u64 },
}

/// The busy-poll decision for one reading `now` of the tick counter: wait
/// while `now` is short of `target`; past it, report how late the reading
/// is, against `max_jitter_us` when a bound is set.
pub open spec fn poll_spec(now: u64, target: u64, freq: u64, max_jitter_us: Option<u64>) -> WaitStep {
    if now < target {
        WaitStep::Wait
    } else {
        let j = micros_of((now - target) as u64, freq);
        match max_jitter_us {
            Some(m) => if j > m {
                WaitStep::JitterExceeded { jitter_us: j }
            } else {
                WaitStep::Resume { jitter_us: j }
            },
            None => WaitStep::Resume { jitter_us: j },
        }
    }
}

/// One reading of a busy-poll wait.
pub fn poll(now: u64, target: u64, freq: u64, max_jitter_us: Option<u64>) -> (r: WaitStep)
    requires
        freq > 0,
    ensures
        r == poll_spec(now, target, freq, max_jitter_us),
        r is Wait <==> now < target,
{
    if now < target {
        WaitStep::Wait
    } else {
        let j = ticks_to_time(now - target, freq);
        match max_jitter_us {
            Some(m) => if j > m {
                WaitStep::JitterExceeded { jitter_us: j }
            } else {
                WaitStep::Resume { jitter_us: j }
            },
            None => WaitStep::Resume { jitter_us: j },
        }
    }
}

/// The number of the job after `c`, held at the largest `usize`.
pub open spec fn next_job(c: usize) -> usize {
    if c < usize::MAX {
        (c + 1) as usize
    } else {
        c
    }
}

/// What became of an exogenous signal taken by the main loop.
#[derive(Clone, Copy, PartialEq, Eq, Structural, Debug)]
pub enum Injection {
    /// The job was put into the input port.
    Injected(usize),
    /// The signal came too soon after the last accepted one.
    Debounced,
    /// The input port was full; the job was not put in.
    Full(usize),
}

/// Turns exogenous signals into numbered jobs, rejecting a signal that
/// follows the last accepted one by `min_gap` ticks or less.
#[derive(Clone, Copy, PartialEq, Eq, Structural, Debug)]
pub struct Injector {
    pub min_gap: u64,
    pub last: Option<u64>,
    pub count: usize,
}

impl Injector {
    pub fn new(min_gap: u64) -> (r: Injector)
        ensures
            r == (Injector { min_gap, last: None, count: 0 }),
    {
        Injector { min_gap, last: None, count: 0 }
    }

    /// A signal at tick `now` passes the debounce window.
    pub open spec fn accepts(&self, now: u64) -> bool {
        match self.last {
            None => true,
            Some(l) => now as int - l as int > self.min_gap as int,
        }
    }

    /// The injector and the outcome after a signal at tick `now`, the input
    /// port having `room` for one more job: a signal that passes the debounce
    /// window becomes the last accepted one and offers job `count`; the count
    /// moves on only when the port took it.
    pub open spec fn signal_spec(&self, now: u64, room: bool) -> (Injector, Injection) {
        if !self.accepts(now) {
            (*self, Injection::Debounced)
        } else if room {
            (Injector { last: Some(now), count: next_job(self.count), ..*self }, Injection::Injected(self.count))
        } else {
            (Injector { last: Some(now), ..*self }, Injection::Full(self.count))
        }
    }

    /// Handles a signal taken at tick `now`, offering the job to `port`.
    pub fn on_signal(&mut self, now: u64, port: &mut Port<usize>) -> (r: Injection)
        requires
            old(port).wf(),
        ensures
            final(port).wf(),
            final(port).cap() == old(port).cap(),
            (*final(self), r) == old(self).signal_spec(now, old(port)@.len() < old(port).cap()),
            r is Injected ==> final(port)@ == old(port)@.push(old(self).count),
            !(r is Injected) ==> final(port)@ == old(port)@,
    {
        let ok = match self.last {
            None => true,
            Some(l) => now > l && now - l > self.min_gap,
        };
        if !ok {
            return Injection::Debounced;
        }
        self.last = Some(now);
        let job = self.count;
        match port.add_value(job) {
            Ok(()) => {
                if self.count < usize::MAX {
                    self.count = self.count + 1;
                }
                Injection::Injected(job)
            },
            Err(_) => Injection::Full(job),
        }
    }

    /// One wake-up of an interrupt-driven wait for `target`: once the tick
    /// counter reached it, the wait ends; before that, a signal taken by the
    /// main loop (`signalled`) ends it early when it puts a job into `port`.
    /// Returns whether the wait ends, and what became of the signal.
    pub fn wake(&mut self, now: u64, target: u64, signalled: bool, port: &mut Port<usize>) -> (r: (
        bool,
        Option<Injection>,
    ))
        requires
            old(port).wf(),
        ensures
            final(port).wf(),
            final(port).cap() == old(port).cap(),
            now >= target || !signalled ==> r == (now >= target, Option::<Injection>::None)
                && *final(self) == *old(self) && final(port)@ == old(port)@,
            now < target && signalled ==> ({
                let (inj, i) = old(self).signal_spec(now, old(port)@.len() < old(port).cap());
                &&& *final(self) == inj
                &&& r == (i is Injected, Some(i))
            }),
            r.0 && now < target ==> final(port)@ == old(port)@.push(old(self).count),
            !(r.0 && now < target) ==> final(port)@ == old(port)@,
    {
        if now >= target {
            (true, None)
        } else if signalled {
            let i = self.on_signal(now, port);
            let done = match i {
                Injection::Injected(_) => true,
                _ => false,
            };
            (done, Some(i))
        } else {
            (false, None)
        }
    }
}

/// The virtual time that a wait for `t_next` resumes at, on counter reading
/// `now` with tick zero standing for `t_start`: the time of the reading,
/// never past `t_next`.
pub open spec fn resume_spec(t_start: u64, t_next: u64, now: u64, freq: u64) -> int {
    t_start + vstd::math::min(micros_of(now, freq) as int, t_next - t_start)
}

/// The virtual time at which a wait for `t_next` resumes.
pub fn resume_time(t_start: u64, t_next: u64, now: u64, freq: u64) -> (r: u64)
    requires
        t_start <= t_next,
        freq > 0,
    ensures
        r == resume_spec(t_start, t_next, now, freq),
        t_start <= r <= t_next,
        now < u64::MAX && now >= ticks_ceil_of((t_next - t_start) as u64, freq) ==> r == t_next,
        now < ticks_ceil_of((t_next - t_start) as u64, freq) ==> r < t_next,
{
    let d = ticks_to_time(now, freq);
    proof {
        if now >= ticks_ceil_of((t_next - t_start) as u64, freq) && now < u64::MAX {
            lemma_ceil_reached(now, (t_next - t_start) as u64, freq);
        }
        if now < ticks_ceil_of((t_next - t_start) as u64, freq) {
            lemma_early_reading(now, (t_next - t_start) as u64, freq);
        }
    }
    if d >= t_next - t_start {
        t_next
    } else {
        t_start + d
    }
}

/// Successive waits never go back in time: a later counter reading, for a
/// target no earlier, resumes no earlier.
pub proof fn lemma_resume_monotone(t_start: u64, t1: u64, n1: u64, t2: u64, n2: u64, freq: u64)
    requires
        t_start <= t1 <= t2,
        n1 <= n2,
        freq > 0,
    ensures
        resume_spec(t_start, t1, n1, freq) <= resume_spec(t_start, t2, n2, freq),
{
    let m: int = 1_000_000;
    assert(n1 as int * m <= n2 as int * m) by (nonlinear_arith)
        requires
            n1 <= n2,
            m > 0,
    ;
    vstd::arithmetic::div_mod::lemma_div_is_ordered(n1 as int * m, n2 as int * m, freq as int);
}

/// A reading short of the tick that `d` microseconds reach stands for less
/// than `d` microseconds.
proof fn lemma_early_reading(now: u64, d: u64, freq: u64)
    requires
        freq > 0,
        now < ticks_ceil_of(d, freq),
    ensures
        micros_of(now, freq) < d,
{
    let m: int = 1_000_000;
    let f = freq as int;
    let x = d as int * f + 999_999;
    let q = x / m;
    assert(q * m <= x) by (nonlinear_arith)
        requires
            q == x / m,
            m > 0,
    ;
    assert(now + 1 <= q);
    assert((now as int + 1) * m <= q * m) by (nonlinear_arith)
        requires
            now as int + 1 <= q,
            m > 0,
    ;
    let p = (now as int * m) / f;
    assert(p * f <= now as int * m) by (nonlinear_arith)
        requires
            p == (now as int * m) / f,
            f > 0,
    ;
    assert(p < d) by (nonlinear_arith)
        requires
            p * f <= now as int * m,
            (now as int + 1) * m <= d as int * f + 999_999,
            m == 1_000_000,
            f > 0,
    ;
}

} // verus!
