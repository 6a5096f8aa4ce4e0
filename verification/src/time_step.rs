use vstd::prelude::*;
use vstd::arithmetic::div_mod::{
    lemma_div_by_multiple, lemma_div_is_ordered, lemma_fundamental_div_mod_converse,
};

verus! {

/// Number of action invocations one poll performs, given the accumulated
/// elapsed time: the count of full intervals in the accumulator, capped at one
/// more than the permitted number of missed steps.
pub open spec fn steps_for(elapsed: int, freq: int, max_missed: int) -> int
    recommends
        freq >= 1,
{
    if elapsed / freq <= max_missed + 1 {
        elapsed / freq
    } else {
        max_missed + 1
    }
}

/// The accumulator left behind by one poll: the remainder when the backlog fit
/// under the cap, and zero when the remaining backlog was discarded.
pub open spec fn residual_for(elapsed: int, freq: int, max_missed: int) -> int
    recommends
        freq >= 1,
{
    if elapsed / freq <= max_missed + 1 {
        elapsed % freq
    } else {
        0
    }
}

/// The abstract state of a [`TimeStep`]: interval, catch-up cap and
/// accumulated nanoseconds, as unbounded integers.
pub struct TimeStepView {
    pub freq: int,
    pub max_missed: int,
    pub elapsed: int,
}

/// The invocation counts and final accumulator of a sequence of polls, as a
/// function of the configuration, the starting accumulator and the
/// elapsed-time increments alone.
pub open spec fn spec_replay(freq: int, max_missed: int, elapsed0: int, deltas: Seq<int>) -> (Seq<
    int,
>, int)
    recommends
        freq >= 1,
    decreases deltas.len(),
{
    if deltas.len() == 0 {
        (Seq::empty(), elapsed0)
    } else {
        let prev = spec_replay(freq, max_missed, elapsed0, deltas.drop_last());
        let e = prev.1 + deltas.last();
        (prev.0.push(steps_for(e, freq, max_missed)), residual_for(e, freq, max_missed))
    }
}

/// LAW: stepping is deterministic. The per-poll invocation counts and the
/// final accumulator are a pure function of the configuration and the
/// increment sequence: two replays of the same increments from the same
/// starting state agree exactly.
pub proof fn lemma_replay_deterministic(
    freq: int,
    max_missed: int,
    e1: int,
    e2: int,
    d1: Seq<int>,
    d2: Seq<int>,
)
    requires
        e1 == e2,
        d1 == d2,
    ensures
        spec_replay(freq, max_missed, e1, d1) == spec_replay(freq, max_missed, e2, d2),
{
}

/// Represents a simulation time step. This allows discrete, frame-rate
/// independent actions to be performed within a render loop: the host feeds
/// in elapsed wall-clock time, and the poll says how many fixed-interval
/// steps to run, discarding backlog beyond the configured catch-up cap.
pub struct TimeStep {
    freq_nanos: u64,
    max_missed: u32,
    elapsed_nanos: u64,
}

impl View for TimeStep {
    type V = TimeStepView;

    closed spec fn view(&self) -> TimeStepView {
        TimeStepView {
            freq: self.freq_nanos as int,
            max_missed: self.max_missed as int,
            elapsed: self.elapsed_nanos as int,
        }
    }
}

impl TimeStep {
    /// The interval is always strictly positive.
    #[verifier::type_invariant]
    pub open spec fn wf(self) -> bool {
        self@.freq >= 1
    }

    /// Creates a new time step running at the specified frequency (in
    /// milliseconds). The frequency must be strictly positive.
    pub fn for_freq_ms(freq_msec: u32) -> (r: Self)
        requires
            freq_msec >= 1,
        ensures
            r@.freq == freq_msec as int * 1_000_000,
            r@.max_missed == 1,
            r@.elapsed == 0,
    {
        Self { freq_nanos: (freq_msec as u64) * 1_000_000, max_missed: 1, elapsed_nanos: 0 }
    }

    /// Sets how many missed steps will be attempted to run before giving up
    /// and discarding them. By default, this is set to 1 (if the simulation is
    /// one step behind, it will try to catch up). Setting this too high in
    /// situations where the action runs longer than the interval will starve
    /// the render loop.
    pub fn max_missed_steps_before_discard(self, max_miss: u32) -> (r: Self)
        ensures
            r@.freq == self@.freq,
            r@.elapsed == self@.elapsed,
            r@.max_missed == max_miss as int,
    {
        proof {
            use_type_invariant(&self);
        }
        Self { max_missed: max_miss, ..self }
    }

    /// The accumulated elapsed time not yet consumed by steps, in nanoseconds.
    pub fn accumulated_nanos(&self) -> (r: u64)
        ensures
            r as int == self@.elapsed,
    {
        self.elapsed_nanos
    }

    /// The configured interval, in nanoseconds.
    pub fn freq_nanos(&self) -> (r: u64)
        ensures
            r as int == self@.freq,
            r >= 1,
    {
        proof {
            use_type_invariant(self);
        }
        self.freq_nanos
    }

    /// Adds elapsed wall-clock time to the accumulator.
    pub fn update_elapsed(&mut self, delta_nanos: u64)
        requires
            old(self)@.elapsed + delta_nanos as int <= u64::MAX as int,
        ensures
            final(self)@.elapsed == old(self)@.elapsed + delta_nanos as int,
            final(self)@.freq == old(self)@.freq,
            final(self)@.max_missed == old(self)@.max_missed,
    {
        proof {
            use_type_invariant(&*self);
        }
        self.elapsed_nanos = self.elapsed_nanos + delta_nanos;
    }

    /// Indicates the start of a new frame after `delta_nanos` of wall-clock
    /// time: adds the delta to the accumulator and returns how many times the
    /// caller is to invoke its action. While the accumulator holds at least
    /// one full interval an invocation is owed and the interval is deducted;
    /// once the catch-up cap is exceeded with at least a full interval still
    /// pending, the remaining backlog is discarded and the accumulator reset
    /// to zero.
    #[verifier::loop_isolation(false)]
    pub fn tick(&mut self, delta_nanos: u64) -> (n: u64)
        requires
            old(self)@.elapsed + delta_nanos as int <= u64::MAX as int,
        ensures
            final(self)@.freq == old(self)@.freq,
            final(self)@.max_missed == old(self)@.max_missed,
            n as int == steps_for(
                old(self)@.elapsed + delta_nanos as int,
                old(self)@.freq,
                old(self)@.max_missed,
            ),
            final(self)@.elapsed == residual_for(
                old(self)@.elapsed + delta_nanos as int,
                old(self)@.freq,
                old(self)@.max_missed,
            ),
    {
        proof {
            use_type_invariant(&*self);
        }
        self.update_elapsed(delta_nanos);
        let ghost e0 = self@.elapsed;
        let ghost freq = self@.freq;
        let ghost maxm = self@.max_missed;
        let mut n: u64 = 0;
        while self.elapsed_nanos >= self.freq_nanos
            invariant
                self@.freq == freq,
                self@.max_missed == maxm,
                freq >= 1,
                0 <= maxm <= u32::MAX as int,
                e0 == n as int * freq + self@.elapsed,
                0 <= n as int <= maxm + 1,
                n as int == maxm + 1 ==> self@.elapsed < freq,
            decreases self@.elapsed,
        {
            self.elapsed_nanos = self.elapsed_nanos - self.freq_nanos;
            n = n + 1;
            proof {
                assert(e0 == n as int * freq + self@.elapsed) by (nonlinear_arith)
                    requires
                        e0 == (n as int - 1) * freq + (self@.elapsed + freq),
                ;
            }
            if n - 1 >= self.max_missed as u64 && self.elapsed_nanos >= self.freq_nanos {
                // Reached the cap on missed steps with a full interval still
                // pending: discard the backlog and stop.
                let ghost pending = self@.elapsed;
                self.elapsed_nanos = 0;
                proof {
                    assert(n as int == maxm + 1);
                    assert(e0 >= (maxm + 2) * freq) by (nonlinear_arith)
                        requires
                            e0 == (maxm + 1) * freq + pending,
                            pending >= freq,
                    ;
                    lemma_div_by_multiple(maxm + 2, freq);
                    lemma_div_is_ordered((maxm + 2) * freq, e0, freq);
                    assert(e0 / freq >= maxm + 2);
                }
                return n;
            }
        }
        proof {
            assert(0 <= self@.elapsed < freq);
            lemma_fundamental_div_mod_converse(e0, freq, n as int, self@.elapsed);
        }
        n
    }
}

} // verus!
