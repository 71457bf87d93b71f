//! The periodic timers of the audio unit.
//!
//! A timer divides the master clock by its resolution, counts the divided
//! ticks in an 8-bit low counter, and bumps an 8-bit high counter each time
//! the low counter reaches the programmed target. Only the low four bits of
//! the high counter can be read, and reading clears it.

use vstd::prelude::*;
use vstd::arithmetic::div_mod::lemma_fundamental_div_mod;
use vstd::arithmetic::div_mod::lemma_fundamental_div_mod_converse;
use vstd::arithmetic::div_mod::lemma_mod_pos_bound;

verus! {

/// The mathematical state of a timer.
pub struct TimerState {
    /// Master cycles per internal tick.
    pub resolution: nat,
    pub running: bool,
    /// Master cycles accumulated towards the next internal tick.
    pub ticks: nat,
    /// The programmed target; zero stands for "wrap at 256".
    pub target: nat,
    pub counter_low: nat,
    pub counter_high: nat,
}

impl TimerState {
    pub open spec fn wf(self) -> bool {
        &&& 1 <= self.resolution <= usize::MAX
        &&& self.ticks <= self.resolution
        &&& self.target < 256
        &&& self.counter_low < 256
        &&& self.counter_high < 256
    }

    /// A stopped timer with cleared counters and no target.
    pub open spec fn fresh(resolution: nat) -> TimerState {
        TimerState {
            resolution,
            running: false,
            ticks: 0,
            target: 0,
            counter_low: 0,
            counter_high: 0,
        }
    }

    /// One internal tick: the low counter moves on, wrapping at 256; when it
    /// lands on a non-zero target it is cleared and the high counter moves on.
    pub open spec fn internal_tick(self) -> TimerState {
        let low = (self.counter_low + 1) % 256;
        if self.target != 0 && low == self.target {
            TimerState {
                counter_low: 0,
                counter_high: ((self.counter_high + 1) % 256) as nat,
                ..self
            }
        } else {
            TimerState { counter_low: low as nat, ..self }
        }
    }

    /// Whether the next master cycle produces an internal tick.
    pub open spec fn tick_is_due(self) -> bool {
        self.running && self.ticks + 1 > self.resolution
    }

    /// One master cycle.
    pub open spec fn tick(self) -> TimerState {
        if !self.running {
            self
        } else if self.ticks + 1 > self.resolution {
            TimerState { ticks: (self.ticks + 1 - self.resolution) as nat, ..self }.internal_tick()
        } else {
            TimerState { ticks: self.ticks + 1, ..self }
        }
    }

    /// `n` master cycles.
    pub open spec fn advance(self, n: nat) -> TimerState
        decreases n,
    {
        if n == 0 {
            self
        } else {
            self.advance((n - 1) as nat).tick()
        }
    }

    /// How many internal ticks `n` master cycles produce.
    pub open spec fn internal_ticks(self, n: nat) -> nat
        decreases n,
    {
        if n == 0 {
            0
        } else {
            let before = self.internal_ticks((n - 1) as nat);
            if self.advance((n - 1) as nat).tick_is_due() {
                before + 1
            } else {
                before
            }
        }
    }

    /// Whether the next master cycle brings the low counter to the target.
    pub open spec fn round_is_due(self) -> bool {
        self.tick_is_due() && self.target != 0 && (self.counter_low + 1) % 256 == self.target
    }

    /// How often the low counter reaches the target within `n` master cycles.
    pub open spec fn rounds(self, n: nat) -> nat
        decreases n,
    {
        if n == 0 {
            0
        } else {
            let before = self.rounds((n - 1) as nat);
            if self.advance((n - 1) as nat).round_is_due() {
                before + 1
            } else {
                before
            }
        }
    }

    /// The start/stop bit is written. A rising edge clears the accumulator
    /// and the low counter; the high counter is never touched.
    pub open spec fn set_running(self, value: bool) -> TimerState {
        if value && !self.running {
            TimerState { running: true, ticks: 0, counter_low: 0, ..self }
        } else {
            TimerState { running: value, ..self }
        }
    }

    pub open spec fn set_target(self, value: u8) -> TimerState {
        TimerState { target: value as nat, ..self }
    }

    /// What a read of the counter returns.
    pub open spec fn output(self) -> nat {
        self.counter_high % 16
    }

    /// The state a read of the counter leaves behind.
    pub open spec fn after_read(self) -> TimerState {
        TimerState { counter_high: 0, ..self }
    }
}

/// Running keeps a timer well formed, and changes neither its resolution, nor
/// its target, nor whether it runs.
pub proof fn lemma_advance_keeps(t: TimerState, n: nat)
    requires
        t.wf(),
    ensures
        t.advance(n).wf(),
        t.advance(n).resolution == t.resolution,
        t.advance(n).target == t.target,
        t.advance(n).running == t.running,
    decreases n,
{
    if n > 0 {
        lemma_advance_keeps(t, (n - 1) as nat);
    }
}

/// A stopped timer stands still.
pub proof fn lemma_stopped_timer_stands(t: TimerState, n: nat)
    requires
        !t.running,
    ensures
        t.advance(n) == t,
    decreases n,
{
    if n > 0 {
        lemma_stopped_timer_stands(t, (n - 1) as nat);
    }
}

/// How quotient and remainder move when the dividend moves on by one.
proof fn lemma_div_mod_step(x: int, d: int)
    requires
        0 <= x,
        1 <= d,
    ensures
        x % d == d - 1 ==> (x + 1) / d == x / d + 1 && (x + 1) % d == 0,
        x % d != d - 1 ==> (x + 1) / d == x / d && (x + 1) % d == x % d + 1,
{
    lemma_fundamental_div_mod(x, d);
    lemma_mod_pos_bound(x, d);
    if x % d == d - 1 {
        assert(x + 1 == (x / d + 1) * d + 0) by (nonlinear_arith)
            requires
                x == d * (x / d) + (x % d),
                x % d == d - 1,
        ;
        lemma_fundamental_div_mod_converse(x + 1, d, x / d + 1, 0);
    } else {
        assert(x + 1 == (x / d) * d + (x % d + 1)) by (nonlinear_arith)
            requires
                x == d * (x / d) + (x % d),
        ;
        lemma_fundamental_div_mod_converse(x + 1, d, x / d, x % d + 1);
    }
}

/// The rate of a running timer. The accumulator counts master cycles and
/// gives off an internal tick each time it passes the resolution `r`,
/// keeping the one cycle that took it past: from an accumulator that holds
/// `a`, `n >= 1` master cycles produce `(a + n - 1) / r` internal ticks and
/// leave `(a + n - 1) % r + 1` in the accumulator. A timer started from rest
/// so ticks first after `r + 1` cycles, and every `r` cycles from then on.
pub proof fn lemma_internal_ticks(t: TimerState, n: nat)
    requires
        t.wf(),
        t.running,
        n >= 1,
    ensures
        t.internal_ticks(n) == (t.ticks + n - 1) / (t.resolution as int),
        t.advance(n).ticks == (t.ticks + n - 1) % (t.resolution as int) + 1,
    decreases n,
{
    let r = t.resolution as int;
    lemma_advance_keeps(t, (n - 1) as nat);
    if n == 1 {
        assert(t.advance(0) == t);
        assert(t.internal_ticks(0) == 0);
        if t.ticks == t.resolution {
            lemma_fundamental_div_mod_converse(t.ticks as int, r, 1, 0);
        } else {
            lemma_fundamental_div_mod_converse(t.ticks as int, r, 0, t.ticks as int);
        }
    } else {
        let k = (n - 1) as nat;
        lemma_internal_ticks(t, k);
        lemma_div_mod_step(t.ticks + k - 1, r);
        let before = t.advance(k);
        assert(t.advance(n) == before.tick());
        assert(before.tick_is_due() <==> (t.ticks + k - 1) % r == r - 1);
    }
}

/// The rounds of a running timer with a target that its low counter has not
/// passed: `k` internal ticks take a low counter that holds `l` through
/// `(l + k) / target` rounds and leave `(l + k) % target` in it.
pub proof fn lemma_rounds(t: TimerState, n: nat)
    requires
        t.wf(),
        t.running,
        t.target != 0,
        t.counter_low < t.target,
    ensures
        t.rounds(n) == (t.counter_low + t.internal_ticks(n)) / t.target,
        t.advance(n).counter_low == (t.counter_low + t.internal_ticks(n)) % t.target,
    decreases n,
{
    let d = t.target as int;
    if n == 0 {
        lemma_fundamental_div_mod_converse(t.counter_low as int, d, 0, t.counter_low as int);
    } else {
        let k = (n - 1) as nat;
        lemma_rounds(t, k);
        lemma_advance_keeps(t, k);
        let before = t.advance(k);
        assert(t.advance(n) == before.tick());
        if before.tick_is_due() {
            lemma_div_mod_step((t.counter_low + t.internal_ticks(k)) as int, d);
        }
    }
}

/// Between two reads the high counter only grows. Over `n` master cycles it
/// moves on by the number of rounds completed in them, which never falls as
/// `n` grows; so as long as it has not passed 255 and wrapped, the counter
/// after `m` cycles is at most the counter after `n >= m` cycles. Writing the
/// target or the start/stop bit does not touch it.
pub proof fn lemma_counter_high_grows(t: TimerState, m: nat, n: nat, target: u8, running: bool)
    requires
        t.wf(),
        m <= n,
    ensures
        t.rounds(m) <= t.rounds(n),
        t.advance(n).counter_high == (t.counter_high + t.rounds(n)) % 256,
        t.counter_high + t.rounds(n) < 256 ==> t.advance(m).counter_high <= t.advance(
            n,
        ).counter_high,
        t.set_target(target).counter_high == t.counter_high,
        t.set_running(running).counter_high == t.counter_high,
    decreases n,
{
    if n > 0 {
        let k = (n - 1) as nat;
        lemma_advance_keeps(t, k);
        if m <= k {
            lemma_counter_high_grows(t, m, k, target, running);
        } else {
            lemma_counter_high_grows(t, k, k, target, running);
        }
        let before = t.advance(k);
        assert(t.advance(n) == before.tick());
        if before.round_is_due() {
            assert(t.advance(n).counter_high == (before.counter_high + 1) % 256);
        } else {
            assert(t.advance(n).counter_high == before.counter_high);
        }
    }
}

/// A timer that is started runs as a timer fresh from reset does once it is
/// given the same target and started: cycle for cycle the two agree in the
/// accumulator and in the low counter, and the high counter of the first is
/// ahead by what it held when it was started.
pub proof fn lemma_restart_runs_as_fresh(t: TimerState, n: nat)
    requires
        t.wf(),
        !t.running,
    ensures
        ({
            let restarted = t.set_running(true).advance(n);
            let fresh = TimerState::fresh(t.resolution).set_target(t.target as u8).set_running(
                true,
            ).advance(n);
            &&& restarted.ticks == fresh.ticks
            &&& restarted.counter_low == fresh.counter_low
            &&& restarted.counter_high == (t.counter_high + fresh.counter_high) % 256
            &&& restarted.target == fresh.target
            &&& restarted.resolution == fresh.resolution
            &&& restarted.running && fresh.running
        }),
    decreases n,
{
    let start = t.set_running(true);
    let origin = TimerState::fresh(t.resolution).set_target(t.target as u8).set_running(true);
    if n > 0 {
        let k = (n - 1) as nat;
        lemma_restart_runs_as_fresh(t, k);
        lemma_advance_keeps(start, k);
        lemma_advance_keeps(origin, k);
        let a = start.advance(k);
        let b = origin.advance(k);
        assert(start.advance(n) == a.tick());
        assert(origin.advance(n) == b.tick());
        assert(a.tick_is_due() == b.tick_is_due());
        assert(a.round_is_due() == b.round_is_due());
    }
}

#[derive(Debug, Clone, Copy)]
pub struct Timer {
    resolution: usize,
    is_running: bool,
    ticks: usize,
    target: u8,
    counter_low: u8,
    counter_high: u8,
}

impl View for Timer {
    type V = TimerState;

    closed spec fn view(&self) -> TimerState {
        TimerState {
            resolution: self.resolution as nat,
            running: self.is_running,
            ticks: self.ticks as nat,
            target: self.target as nat,
            counter_low: self.counter_low as nat,
            counter_high: self.counter_high as nat,
        }
    }
}

impl Timer {
    pub fn new(resolution: usize) -> (timer: Timer)
        requires
            1 <= resolution,
        ensures
            timer@ == TimerState::fresh(resolution as nat),
            timer@.wf(),
    {
        Timer {
            resolution,
            is_running: false,
            ticks: 0,
            target: 0,
            counter_low: 0,
            counter_high: 0,
        }
    }

    /// Advances the timer by one master cycle.
    pub fn tick(&mut self)
        requires
            old(self)@.wf(),
        ensures
            final(self)@ == old(self)@.tick(),
            final(self)@.wf(),
    {
        if !self.is_running {
            return ;
        }
        if self.ticks >= self.resolution {
            self.ticks = self.ticks - self.resolution + 1;
            self.counter_low = self.counter_low.wrapping_add(1);
            if self.target != 0 && self.counter_low == self.target {
                self.counter_high = self.counter_high.wrapping_add(1);
                self.counter_low = 0;
            }
        } else {
            self.ticks += 1;
        }
    }

    /// Advances the timer by `num_cycles` master cycles.
    pub fn cpu_cycles_callback(&mut self, num_cycles: usize)
        requires
            old(self)@.wf(),
        ensures
            final(self)@ == old(self)@.advance(num_cycles as nat),
            final(self)@.wf(),
    {
        let mut done: usize = 0;
        while done < num_cycles
            invariant
                done <= num_cycles,
                self@.wf(),
                self@ == old(self)@.advance(done as nat),
            decreases num_cycles - done,
        {
            self.tick();
            done += 1;
        }
    }

    pub fn set_start_stop_bit(&mut self, value: bool)
        requires
            old(self)@.wf(),
        ensures
            final(self)@ == old(self)@.set_running(value),
            final(self)@.wf(),
    {
        if value && !self.is_running {
            self.ticks = 0;
            self.counter_low = 0;
        }
        self.is_running = value;
    }

    pub fn set_target(&mut self, value: u8)
        requires
            old(self)@.wf(),
        ensures
            final(self)@ == old(self)@.set_target(value),
            final(self)@.wf(),
    {
        self.target = value;
    }

    /// Returns the low four bits of the high counter and clears it.
    pub fn read_counter(&mut self) -> (value: u8)
        requires
            old(self)@.wf(),
        ensures
            value == old(self)@.output(),
            final(self)@ == old(self)@.after_read(),
            final(self)@.wf(),
    {
        let high: u8 = self.counter_high;
        let ret: u8 = high & 0x0f;
        assert(high & 0x0f == high % 16) by (bit_vector);
        self.counter_high = 0;
        ret
    }
}

} // verus!
