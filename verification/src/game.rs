//! The clock of a fixed-timestep loop.
//!
//! The loop that draws the frames hands the clock the time that has passed,
//! or lets it read the time, and is told how many ticks of the simulation
//! are due before the next frame is drawn. There is no upper limit to that
//! number: after a long stall all the ticks that were missed are due at
//! once.

use vstd::prelude::*;
use vstd::arithmetic::div_mod::{
    lemma_div_is_ordered_by_denominator, lemma_div_pos_is_pos, lemma_fundamental_div_mod,
    lemma_fundamental_div_mod_converse, lemma_mod_pos_bound,
};

verus! {

/// The length of one tick of the simulation, in nanoseconds: 20 ms.
pub const TICK_TIME: u64 = 20 * 1000000;

/// The clock of a fixed-timestep loop. Real time is added to an
/// accumulator, and the simulation is stepped once for every whole tick in
/// it, however long a frame took to draw.
#[derive(Clone, Copy, Debug, PartialEq, Eq, Structural)]
pub struct Timestep {
    /// The length of one tick, in nanoseconds.
    pub tick: u64,
    /// The reading of the clock at the last frame.
    pub prev: u64,
    /// The time that has passed and has not been simulated yet.
    pub accum: u64,
}

/// The time from the reading `prev` to the reading `now`. A clock that went
/// back counts as one that stood still.
pub open spec fn elapsed_between(prev: u64, now: u64) -> int {
    if now >= prev {
        now - prev
    } else {
        0
    }
}

/// The number of steps of the loop that, while the accumulator holds at
/// least one tick, takes one tick from it and steps the simulation once.
pub open spec fn steps_of_loop(accum: int, tick: int) -> int
    decreases accum,
{
    if tick > 0 && accum >= tick {
        1 + steps_of_loop(accum - tick, tick)
    } else {
        0
    }
}

/// What that loop leaves in the accumulator.
pub open spec fn rest_of_loop(accum: int, tick: int) -> int
    decreases accum,
{
    if tick > 0 && accum >= tick {
        rest_of_loop(accum - tick, tick)
    } else {
        accum
    }
}

/// The current value of `time::precise_time_ns`: a high-resolution counter
/// in nanoseconds since an epoch that is not specified. Nothing is claimed
/// of the value.
#[verifier::external_body]
fn precise_time_ns() -> (now: u64) {
    time::precise_time_ns()
}

impl Timestep {
    /// Between frames less than one tick is left in the accumulator.
    pub open spec fn wf(self) -> bool {
        self.tick > 0 && self.accum < self.tick
    }

    /// Whether the clock stands as it does between frames: see `wf`.
    pub fn is_wf(&self) -> (b: bool)
        ensures
            b == self.wf(),
    {
        self.tick > 0 && self.accum < self.tick
    }

    /// The number of ticks that are due once `elapsed` has passed.
    pub open spec fn ticks_due(self, elapsed: int) -> int {
        (self.accum + elapsed) / (self.tick as int)
    }

    /// What is left in the accumulator once the ticks that are due after
    /// `elapsed` are taken from it.
    pub open spec fn left_over(self, elapsed: int) -> int {
        (self.accum + elapsed) % (self.tick as int)
    }

    /// A clock with ticks of the length `tick` that was last read at `now`.
    /// A tick of no length is refused.
    pub fn new(tick: u64, now: u64) -> (clock: Option<Timestep>)
        ensures
            clock.is_some() <==> tick > 0,
            clock matches Some(c) ==> c == (Timestep { tick, prev: now, accum: 0 }) && c.wf(),
    {
        if tick == 0 {
            None
        } else {
            Some(Timestep { tick, prev: now, accum: 0 })
        }
    }

    /// A clock with ticks of the length `tick` that starts now.
    pub fn start(tick: u64) -> (clock: Option<Timestep>)
        ensures
            clock.is_some() <==> tick > 0,
            clock matches Some(c) ==> c.tick == tick && c.accum == 0 && c.wf(),
    {
        let now = precise_time_ns();
        Timestep::new(tick, now)
    }

    /// Lets `elapsed` nanoseconds pass. Returns the number of ticks to
    /// simulate before the next frame is drawn: as many whole ticks as the
    /// accumulator then holds. The rest stays in the accumulator. There is
    /// no upper limit: after a long stall many ticks are due at once.
    pub fn advance(&mut self, elapsed: u64) -> (ticks: u64)
        requires
            old(self).wf(),
        ensures
            final(self).wf(),
            final(self).tick == old(self).tick,
            final(self).prev == old(self).prev,
            ticks == old(self).ticks_due(elapsed as int),
            final(self).accum == old(self).left_over(elapsed as int),
    {
        let total: u128 = self.accum as u128 + elapsed as u128;
        let tick: u128 = self.tick as u128;
        proof {
            if tick >= 2 {
                lemma_div_is_ordered_by_denominator(total as int, 2, tick as int);
            }
        }
        let ticks: u128 = total / tick;
        let rest: u128 = total % tick;
        self.accum = rest as u64;
        ticks as u64
    }

    /// Takes the reading `now` of the clock for a new frame: lets the time
    /// since the last reading pass, as `advance` does.
    pub fn frame_at(&mut self, now: u64) -> (ticks: u64)
        requires
            old(self).wf(),
        ensures
            final(self).wf(),
            final(self).tick == old(self).tick,
            final(self).prev == now,
            ticks == old(self).ticks_due(elapsed_between(old(self).prev, now)),
            final(self).accum == old(self).left_over(elapsed_between(old(self).prev, now)),
    {
        let elapsed: u64 = if now >= self.prev {
            now - self.prev
        } else {
            0
        };
        self.prev = now;
        self.advance(elapsed)
    }

    /// Reads the clock for a new frame, as `frame_at` does with the reading
    /// it is given. The reading is left in `prev`.
    pub fn frame(&mut self) -> (ticks: u64)
        requires
            old(self).wf(),
        ensures
            final(self).wf(),
            final(self).tick == old(self).tick,
            ticks == old(self).ticks_due(elapsed_between(old(self).prev, final(self).prev)),
            final(self).accum == old(self).left_over(
                elapsed_between(old(self).prev, final(self).prev),
            ),
    {
        let now = precise_time_ns();
        self.frame_at(now)
    }
}

/// No time is lost and none is made up: the ticks that are due and what is
/// left in the accumulator are together what was in the accumulator and
/// what has passed, and less than one tick is left.
pub proof fn lemma_ticks_account_for_the_time(clock: Timestep, elapsed: int)
    requires
        clock.wf(),
        elapsed >= 0,
    ensures
        clock.ticks_due(elapsed) * clock.tick + clock.left_over(elapsed) == clock.accum + elapsed,
        0 <= clock.left_over(elapsed) < clock.tick,
        clock.ticks_due(elapsed) >= 0,
{
    let total = clock.accum + elapsed;
    lemma_fundamental_div_mod(total, clock.tick as int);
    lemma_mod_pos_bound(total, clock.tick as int);
    lemma_div_pos_is_pos(total, clock.tick as int);
    assert(clock.tick * (total / (clock.tick as int)) == (total / (clock.tick as int))
        * clock.tick) by (nonlinear_arith);
}

/// The ticks that are due are the steps of the loop that takes one tick
/// after the other from the accumulator, and what is left over is what that
/// loop leaves.
pub proof fn lemma_ticks_are_the_steps_of_the_loop(accum: int, tick: int)
    requires
        accum >= 0,
        tick > 0,
    ensures
        steps_of_loop(accum, tick) == accum / tick,
        rest_of_loop(accum, tick) == accum % tick,
    decreases accum,
{
    if accum >= tick {
        lemma_ticks_are_the_steps_of_the_loop(accum - tick, tick);
        let q = (accum - tick) / tick;
        let r = (accum - tick) % tick;
        lemma_fundamental_div_mod(accum - tick, tick);
        lemma_mod_pos_bound(accum - tick, tick);
        assert(accum == (q + 1) * tick + r) by (nonlinear_arith)
            requires
                accum - tick == tick * q + r,
        ;
        lemma_fundamental_div_mod_converse(accum, tick, q + 1, r);
    } else {
        lemma_fundamental_div_mod_converse(accum, tick, 0, accum);
    }
}

} // verus!
