use vstd::prelude::*;
use fps_counter::FPSCounter;

verus! {

#[verifier::external_type_specification]
#[verifier::external_body]
pub struct ExFPSCounter(FPSCounter);

/// How many frames an FPS counter holds: those it counted within the last second.
pub uninterp spec fn frames_held(c: FPSCounter) -> nat;

/// Relies on fps_counter::FPSCounter::new: the counter starts with no frame.
#[verifier::external_body]
fn new_counter() -> (r: FPSCounter)
    ensures
        frames_held(r) == 0,
{
    FPSCounter::new()
}

/// Relies on fps_counter::FPSCounter::tick: it drops the frames older than a
/// second, adds the present one and returns how many it then holds. Which
/// frames are dropped depends on the clock, so only bounds are stated.
#[verifier::external_body]
fn counter_tick(c: &mut FPSCounter) -> (r: usize)
    ensures
        r as nat == frames_held(*final(c)),
        1 <= r <= frames_held(*old(c)) + 1,
{
    c.tick()
}

/// A frames-per-second meter, with the number of ticks made on it.
pub struct FpsMeter {
    counter: FPSCounter,
    ticks: Ghost<nat>,
}

impl FpsMeter {
    /// The ticks made on this meter so far.
    pub closed spec fn ticks(&self) -> nat {
        self.ticks@
    }

    /// The frames the meter counts within the last second.
    pub closed spec fn frames(&self) -> nat {
        frames_held(self.counter)
    }

    /// A meter never counts more frames than were ticked.
    pub closed spec fn wf(&self) -> bool {
        frames_held(self.counter) <= self.ticks@
    }

    /// A meter with no tick made.
    pub fn new() -> (r: FpsMeter)
        ensures
            r.wf(),
            r.ticks() == 0,
            r.frames() == 0,
    {
        FpsMeter { counter: new_counter(), ticks: Ghost(0) }
    }

    /// Counts a frame and returns the frames counted within the last second,
    /// this one included.
    pub fn tick(&mut self) -> (r: usize)
        requires
            old(self).wf(),
        ensures
            final(self).wf(),
            final(self).ticks() == old(self).ticks() + 1,
            r as nat == final(self).frames(),
            1 <= r <= old(self).frames() + 1,
            r <= final(self).ticks(),
    {
        let r = counter_tick(&mut self.counter);
        self.ticks = Ghost(self.ticks@ + 1);
        r
    }
}

/// Updates the meter and gets the frames per second: at least one, and never
/// more than the ticks made on the meter, however little time has passed.
pub fn fps_tick(meter: &mut FpsMeter) -> (r: usize)
    requires
        old(meter).wf(),
    ensures
        final(meter).wf(),
        final(meter).ticks() == old(meter).ticks() + 1,
        r as nat == final(meter).frames(),
        1 <= r <= old(meter).frames() + 1,
        r <= final(meter).ticks(),
{
    meter.tick()
}

} // verus!
