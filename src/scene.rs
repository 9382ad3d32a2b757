use vstd::prelude::*;

verus! {

/// An object that turns about its vertical axis.  Its speed is
/// `speed_num / speed_den` turns per unit time, a unit lasting
/// `ticks_per_unit` ticks, so that on tick `k` it stands at
/// `k / ticks_per_unit * speed` of a full turn.  Its orientation is held
/// exactly, as `turn_num / turn_den()` of a full turn, in `[0, 1)`.
#[derive(Clone, Copy, Debug, PartialEq, Eq, Structural)]
pub struct Rotatable {
    pub speed_num: u32,
    pub speed_den: u32,
    pub ticks_per_unit: u32,
    pub turn_num: u64,
}

impl Rotatable {
    /// The denominator of every angle of this object.
    pub open spec fn turn_den(self) -> int {
        self.ticks_per_unit as int * self.speed_den as int
    }

    pub open spec fn wf(self) -> bool {
        &&& self.speed_den > 0
        &&& self.ticks_per_unit > 0
        &&& self.turn_num < self.turn_den()
    }

    /// The angle of tick `frame`, over `turn_den()`: the tick's time,
    /// `frame / ticks_per_unit`, times the speed.
    pub open spec fn step_num(self, frame: u64) -> int {
        frame as int * self.speed_num as int
    }

    /// The object posed at the angle of tick `frame`, modulo a full turn.
    pub open spec fn at_tick(self, frame: u64) -> Rotatable {
        Rotatable { turn_num: (self.step_num(frame) % self.turn_den()) as u64, ..self }
    }

    /// An object at orientation zero.
    pub fn new(speed_num: u32, speed_den: u32, ticks_per_unit: u32) -> (r: Rotatable)
        requires
            speed_den > 0,
            ticks_per_unit > 0,
        ensures
            r.wf(),
            r.speed_num == speed_num,
            r.speed_den == speed_den,
            r.ticks_per_unit == ticks_per_unit,
            r.turn_num == 0,
    {
        proof {
            assert(ticks_per_unit as int * speed_den as int > 0) by (nonlinear_arith)
                requires
                    ticks_per_unit > 0,
                    speed_den > 0,
            ;
        }
        Rotatable { speed_num, speed_den, ticks_per_unit, turn_num: 0 }
    }

    pub fn turn_den_exec(&self) -> (r: u64)
        ensures
            r == self.turn_den(),
    {
        proof {
            assert(self.ticks_per_unit as int * self.speed_den as int <= u32::MAX as int
                * u32::MAX as int) by (nonlinear_arith);
        }
        self.ticks_per_unit as u64 * self.speed_den as u64
    }

    /// The angle of tick `frame` as `(numerator, turn_den())`, not reduced
    /// modulo a full turn.
    pub fn step_turns(&self, frame: u64) -> (r: (u128, u64))
        ensures
            r.0 == self.step_num(frame),
            r.1 == self.turn_den(),
    {
        proof {
            assert(frame as int * self.speed_num as int <= u64::MAX as int * u32::MAX as int)
                by (nonlinear_arith);
        }
        (frame as u128 * self.speed_num as u128, self.turn_den_exec())
    }

    /// Poses the object at the angle of tick `frame`.
    pub fn turn_to_tick(&mut self, frame: u64)
        requires
            old(self).wf(),
        ensures
            *final(self) == old(self).at_tick(frame),
            final(self).wf(),
    {
        let (step, den) = self.step_turns(frame);
        let t: u128 = step % (den as u128);
        self.turn_num = t as u64;
    }
}

/// The scene: every object that the update step turns and the renderer reads.
pub struct Scene {
    pub entities: Vec<Rotatable>,
}

impl Scene {
    pub open spec fn wf(&self) -> bool {
        forall|i: int| 0 <= i < self.entities@.len() ==> (#[trigger] self.entities@[i]).wf()
    }

    pub fn new() -> (r: Scene)
        ensures
            r.wf(),
            r.entities@.len() == 0,
    {
        Scene { entities: Vec::new() }
    }

    /// Adds an object and returns its index.
    pub fn spawn(&mut self, e: Rotatable) -> (r: usize)
        requires
            old(self).wf(),
            e.wf(),
        ensures
            final(self).wf(),
            final(self).entities@ == old(self).entities@.push(e),
            r == old(self).entities@.len(),
    {
        let r = self.entities.len();
        self.entities.push(e);
        r
    }

    /// The update step of tick `frame`: every object is posed at that tick's
    /// angle.
    pub fn update(&mut self, frame: u64)
        requires
            old(self).wf(),
        ensures
            final(self).wf(),
            final(self).entities@.len() == old(self).entities@.len(),
            forall|i: int|
                0 <= i < old(self).entities@.len() ==> final(self).entities@[i] == old(
                    self,
                ).entities@[i].at_tick(frame),
    {
        let n = self.entities.len();
        let mut i: usize = 0;
        while i < n
            invariant
                0 <= i <= n,
                n == old(self).entities@.len(),
                self.entities@.len() == n,
                forall|j: int| 0 <= j < n ==> (#[trigger] self.entities@[j]).wf(),
                forall|j: int|
                    0 <= j < i ==> self.entities@[j] == old(self).entities@[j].at_tick(frame),
                forall|j: int| i <= j < n ==> self.entities@[j] == old(self).entities@[j],
            decreases n - i,
        {
            let mut e = self.entities[i];
            e.turn_to_tick(frame);
            self.entities.set(i, e);
            i = i + 1;
        }
    }
}

} // verus!
