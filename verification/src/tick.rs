//! A stopwatch for frame-rate accounting, over explicit readings of a
//! monotonic nanosecond clock.

use vstd::prelude::*;

verus! {

/// A start/stop stopwatch that accumulates elapsed time and counts laps.
/// The caller supplies each clock reading (nanoseconds on any monotonic
/// clock); readings taken out of order are clamped to zero elapsed time.
#[derive(Debug, Clone)]
pub struct TickMeter {
    start_ns: Option<u64>,
    total_ns: u64,
    counter: u64,
}

impl TickMeter {
    /// The reading at which the running lap started, if one is running.
    pub closed spec fn spec_start_ns(&self) -> Option<u64> {
        self.start_ns
    }

    /// The accumulated time of the finished laps, in nanoseconds.
    pub closed spec fn spec_total_ns(&self) -> u64 {
        self.total_ns
    }

    /// How many laps have finished.
    pub closed spec fn spec_counter(&self) -> u64 {
        self.counter
    }

    /// A stopped meter with nothing accumulated.
    pub fn new() -> (r: Self)
        ensures
            r.spec_start_ns() is None,
            r.spec_total_ns() == 0,
            r.spec_counter() == 0,
    {
        TickMeter { start_ns: None, total_ns: 0, counter: 0 }
    }

    /// Starts a lap at the given reading; starting a running meter changes
    /// nothing.
    pub fn start(&mut self, now_ns: u64)
        ensures
            old(self).spec_start_ns() is None ==> final(self).spec_start_ns() == Some(now_ns),
            old(self).spec_start_ns() is Some ==> final(self).spec_start_ns() == old(
                self,
            ).spec_start_ns(),
            final(self).spec_total_ns() == old(self).spec_total_ns(),
            final(self).spec_counter() == old(self).spec_counter(),
    {
        if self.start_ns.is_none() {
            self.start_ns = Some(now_ns);
        }
    }

    /// Stops the running lap at the given reading: its span joins the total
    /// (saturating at the clock's range) and the lap count grows by one.
    /// Stopping a stopped meter changes nothing.
    pub fn stop(&mut self, now_ns: u64)
        requires
            old(self).spec_counter() < u64::MAX,
        ensures
            final(self).spec_start_ns() is None,
            old(self).spec_start_ns() matches Some(t) ==> {
                &&& final(self).spec_total_ns() == if old(self).spec_total_ns() + (
                    if now_ns >= t {
                        (now_ns - t) as int
                    } else {
                        0
                    }) > u64::MAX {
                    u64::MAX as int
                } else {
                    old(self).spec_total_ns() + (if now_ns >= t {
                        (now_ns - t) as int
                    } else {
                        0
                    })
                }
                &&& final(self).spec_counter() == old(self).spec_counter() + 1
            },
            old(self).spec_start_ns() is None ==> *final(self) == *old(self),
    {
        match self.start_ns {
            Some(t) => {
                let elapsed = if now_ns >= t {
                    now_ns - t
                } else {
                    0
                };
                self.total_ns = saturating_add_u64(self.total_ns, elapsed);
                self.counter = self.counter + 1;
                self.start_ns = None;
            },
            None => {},
        }
    }

    /// Back to a stopped meter with nothing accumulated.
    pub fn reset(&mut self)
        ensures
            final(self).spec_start_ns() is None,
            final(self).spec_total_ns() == 0,
            final(self).spec_counter() == 0,
    {
        self.start_ns = None;
        self.total_ns = 0;
        self.counter = 0;
    }

    /// How many laps have finished.
    pub fn get_counter(&self) -> (r: u64)
        ensures
            r == self.spec_counter(),
    {
        self.counter
    }

    /// The accumulated time of the finished laps, in nanoseconds. Frame-rate
    /// displays divide the lap count by this.
    pub fn get_total_ns(&self) -> (r: u64)
        ensures
            r == self.spec_total_ns(),
    {
        self.total_ns
    }
}

impl Default for TickMeter {
    /// The same meter `new` builds.
    fn default() -> (r: Self)
        ensures
            r.spec_start_ns() is None,
            r.spec_total_ns() == 0,
            r.spec_counter() == 0,
    {
        TickMeter::new()
    }
}

/// u64 addition saturating at the top of the range.
fn saturating_add_u64(a: u64, b: u64) -> (r: u64)
    ensures
        r == if a + b > u64::MAX {
            u64::MAX as int
        } else {
            a + b
        },
{
    if a <= u64::MAX - b {
        a + b
    } else {
        u64::MAX
    }
}

} // verus!
