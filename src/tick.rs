use vstd::prelude::*;

verus! {

/// The fixed logical step, `num / den` seconds.
#[derive(Clone, Copy, Debug, PartialEq, Eq, Structural)]
pub struct TickDelta {
    pub num: u64,
    pub den: u64,
}

impl TickDelta {
    pub open spec fn wf(self) -> bool {
        self.den > 0
    }

    /// One sixtieth of a second.
    pub fn sixtieth() -> (r: TickDelta)
        ensures
            r.wf(),
            r.num == 1,
            r.den == 60,
    {
        TickDelta { num: 1, den: 60 }
    }
}

/// The step in hundredths of a second, rounded half up and capped at what
/// a 16-bit delay field holds.
pub open spec fn delay_centis_of(delta: TickDelta) -> nat {
    let d = (100 * delta.num + delta.den / 2) / (delta.den as int);
    if d > u16::MAX {
        u16::MAX as nat
    } else {
        d as nat
    }
}

/// The per-frame playback delay that matches the tick rate, so that the
/// animation plays at the speed at which it was simulated.
pub fn frame_delay_centis(delta: TickDelta) -> (r: u16)
    requires
        delta.wf(),
    ensures
        r == delay_centis_of(delta),
{
    let d: u128 = (100 * (delta.num as u128) + (delta.den as u128) / 2) / (delta.den as u128);
    if d > u16::MAX as u128 {
        u16::MAX
    } else {
        d as u16
    }
}

/// One logical tick handed out by the driver.
#[derive(Clone, Copy, Debug, PartialEq, Eq, Structural)]
pub struct Tick {
    /// The number of this tick, from 0.
    pub index: u64,
    /// The budget is spent: the host loop should shut down after this tick.
    /// It stays set on every tick after that.
    pub last: bool,
}

/// Advances one logical clock by a fixed step per iteration and ends the run
/// after a fixed number of ticks, whatever the wall clock says.  The clock
/// goes on counting if the host loop runs past the budget.
#[derive(Clone, Copy, Debug, PartialEq, Eq, Structural)]
pub struct TickDriver {
    pub ticks: u64,
    pub budget: u64,
    pub delta: TickDelta,
}

impl TickDriver {
    pub open spec fn wf(self) -> bool {
        self.delta.wf()
    }

    /// The driver after one iteration that took `wall_nanos` of real time.
    pub open spec fn advanced(self, wall_nanos: u64) -> TickDriver {
        TickDriver { ticks: (self.ticks + 1) as u64, ..self }
    }

    /// The driver after one iteration per entry of `walls`.
    pub open spec fn run(self, walls: Seq<u64>) -> TickDriver
        decreases walls.len(),
    {
        if walls.len() == 0 {
            self
        } else {
            self.run(walls.drop_last()).advanced(walls.last())
        }
    }

    pub fn new(budget: u64, delta: TickDelta) -> (r: TickDriver)
        requires
            delta.wf(),
        ensures
            r.wf(),
            r.ticks == 0,
            r.budget == budget,
            r.delta == delta,
    {
        TickDriver { ticks: 0, budget, delta }
    }

    /// Runs one iteration.  `wall_nanos`, the real time that the iteration
    /// took, has no say in logical time.  The tick handed back is numbered
    /// by the ticks before it, and is the last once the budget is spent.
    pub fn advance(&mut self, wall_nanos: u64) -> (r: Tick)
        requires
            old(self).wf(),
            old(self).ticks < u64::MAX,
        ensures
            *final(self) == old(self).advanced(wall_nanos),
            final(self).ticks == old(self).ticks + 1,
            final(self).wf(),
            r.index == old(self).ticks,
            r.last == (final(self).ticks >= final(self).budget),
    {
        let index = self.ticks;
        self.ticks = self.ticks + 1;
        Tick { index, last: self.ticks >= self.budget }
    }

    /// Whether the budget is spent.
    pub fn finished(&self) -> (r: bool)
        ensures
            r == (self.ticks >= self.budget),
    {
        self.ticks >= self.budget
    }

    /// Logical time since the start, in units of `1 / delta.den` seconds.
    pub fn elapsed_num(&self) -> (r: u128)
        ensures
            r == self.ticks * self.delta.num,
    {
        proof {
            assert(self.ticks * self.delta.num <= u64::MAX as int * u64::MAX as int)
                by (nonlinear_arith);
        }
        self.ticks as u128 * self.delta.num as u128
    }
}

/// Every iteration counts as one tick, the budget spent or not.
pub proof fn lemma_run_ticks(d: TickDriver, walls: Seq<u64>)
    requires
        d.wf(),
        d.ticks + walls.len() <= u64::MAX,
    ensures
        d.run(walls).wf(),
        d.run(walls).ticks == d.ticks + walls.len(),
        d.run(walls).budget == d.budget,
        d.run(walls).delta == d.delta,
    decreases walls.len(),
{
    if walls.len() > 0 {
        lemma_run_ticks(d, walls.drop_last());
    }
}

/// Logical time is decoupled from the wall clock: two runs with the same
/// number of iterations end in the same state, however long each took.
pub proof fn lemma_ticks_ignore_wall_clock(d: TickDriver, a: Seq<u64>, b: Seq<u64>)
    requires
        a.len() == b.len(),
    ensures
        d.run(a) == d.run(b),
    decreases a.len(),
{
    if a.len() > 0 {
        lemma_ticks_ignore_wall_clock(d, a.drop_last(), b.drop_last());
    }
}

} // verus!
