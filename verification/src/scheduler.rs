//! The frame scheduler: per-tick counter transitions, the metrics refresh
//! cadence, and the order of the fallible steps inside one tick.

use vstd::prelude::*;

verus! {

/// The scheduler's three wrapping counters.  `frame` steps the animation and
/// the refresh cadence, `cycle` counts full ten-frame sweeps, and `page`
/// selects which of the two dashboard layouts is rendered.
#[derive(Clone, Copy, PartialEq, Eq, Structural, Debug)]
pub struct FrameState {
    pub frame: u16,
    pub cycle: u8,
    pub page: u8,
}

impl FrameState {
    /// The counters stay inside their wrapping ranges.
    pub open spec fn wf(self) -> bool {
        self.frame < 10 && self.cycle < 2 && self.page < 2
    }

    /// One tick's counter transition: bump `frame`; every tenth frame bump
    /// `cycle`; every second cycle flip `page`.
    pub open spec fn spec_advance(s: FrameState) -> FrameState {
        let bumped: int = s.frame + 1;
        let frame2: int = if bumped == 10 {
            0
        } else {
            bumped
        };
        let cycle2: int = if bumped == 10 {
            s.cycle + 1
        } else {
            s.cycle as int
        };
        let cycle3: int = if cycle2 == 2 {
            0
        } else {
            cycle2
        };
        let page2: int = if cycle2 == 2 {
            (s.page + 1) % 2
        } else {
            s.page as int
        };
        FrameState { frame: frame2 as u16, cycle: cycle3 as u8, page: page2 as u8 }
    }

    /// The state reached after `n` ticks.
    pub open spec fn iter_advance(s: FrameState, n: nat) -> FrameState
        decreases n,
    {
        if n == 0 {
            s
        } else {
            Self::spec_advance(Self::iter_advance(s, (n - 1) as nat))
        }
    }

    /// The initial scheduler state: all counters at zero.
    pub fn new() -> (s: FrameState)
        ensures
            s == (FrameState { frame: 0, cycle: 0, page: 0 }),
            s.wf(),
    {
        FrameState { frame: 0, cycle: 0, page: 0 }
    }

    /// Metrics are refreshed exactly on the ticks whose frame counter is a
    /// multiple of `k`, the sampler's minimum refresh interval measured in
    /// ticks.
    pub fn should_refresh(&self, k: u16) -> (r: bool)
        requires
            k > 0,
        ensures
            r == (self.frame % k == 0),
    {
        self.frame % k == 0
    }

    /// Step the counters by one tick.
    pub fn advance(&mut self)
        requires
            old(self).wf(),
        ensures
            final(self).wf(),
            *final(self) == Self::spec_advance(*old(self)),
    {
        self.frame = self.frame + 1;
        if self.frame == 10 {
            self.frame = 0;
            self.cycle = self.cycle + 1;
        }
        if self.cycle == 2 {
            self.cycle = 0;
            self.page = (self.page + 1) % 2;
        }
    }

    pub fn frame(&self) -> (r: u16)
        ensures
            r == self.frame,
    {
        self.frame
    }

    pub fn page(&self) -> (r: u8)
        ensures
            r == self.page,
    {
        self.page
    }

    /// Closed form for the first twenty ticks after a cycle boundary: the
    /// frame counter walks 0..10 twice, the cycle counter ticks once in the
    /// middle, and the page does not move.
    proof fn lemma_iter_closed_form(s0: FrameState, i: nat)
        requires
            s0.wf(),
            s0.frame == 0,
            s0.cycle == 0,
            i < 20,
        ensures
            Self::iter_advance(s0, i) == (FrameState {
                frame: (i % 10) as u16,
                cycle: (i / 10) as u8,
                page: s0.page,
            }),
        decreases i,
    {
        if i > 0 {
            Self::lemma_iter_closed_form(s0, (i - 1) as nat);
        }
    }

    /// Across twenty consecutive ticks starting at a cycle boundary the page
    /// stays constant, and at the twentieth tick it flips exactly once to the
    /// other layout.
    pub proof fn lemma_page_holds_then_flips(s0: FrameState, i: nat)
        requires
            s0.wf(),
            s0.frame == 0,
            s0.cycle == 0,
        ensures
            i < 20 ==> Self::iter_advance(s0, i).page == s0.page,
            Self::iter_advance(s0, 20).page == ((s0.page + 1) % 2) as u8,
    {
        if i < 20 {
            Self::lemma_iter_closed_form(s0, i);
        }
        Self::lemma_iter_closed_form(s0, 19);
        assert(Self::iter_advance(s0, 20) == Self::spec_advance(Self::iter_advance(s0, 19)));
    }
}

/// The steps of one tick, in the order the loop performs them.
#[derive(Clone, Copy, PartialEq, Eq, Structural, Debug)]
pub enum TickPhase {
    Refresh,
    Clear,
    Render,
    Advance,
    Flush,
    Sleep,
}

/// Which step follows `phase`, given whether `phase` failed.  `None` means
/// the loop must stop: a failed clear or flush is fatal, while a failed
/// render is absorbed and the tick still reaches its flush.
pub open spec fn spec_next_phase(phase: TickPhase, failed: bool) -> Option<TickPhase> {
    match phase {
        TickPhase::Refresh => Some(TickPhase::Clear),
        TickPhase::Clear => if failed {
            None
        } else {
            Some(TickPhase::Render)
        },
        TickPhase::Render => Some(TickPhase::Advance),
        TickPhase::Advance => Some(TickPhase::Flush),
        TickPhase::Flush => if failed {
            None
        } else {
            Some(TickPhase::Sleep)
        },
        TickPhase::Sleep => Some(TickPhase::Refresh),
    }
}

/// Exec mirror of [`spec_next_phase`]: the loop driver asks it where to go
/// after each step.
pub fn next_phase(phase: TickPhase, failed: bool) -> (r: Option<TickPhase>)
    ensures
        r == spec_next_phase(phase, failed),
{
    match phase {
        TickPhase::Refresh => Some(TickPhase::Clear),
        TickPhase::Clear => if failed {
            None
        } else {
            Some(TickPhase::Render)
        },
        TickPhase::Render => Some(TickPhase::Advance),
        TickPhase::Advance => Some(TickPhase::Flush),
        TickPhase::Flush => if failed {
            None
        } else {
            Some(TickPhase::Sleep)
        },
        TickPhase::Sleep => Some(TickPhase::Refresh),
    }
}

/// A tick whose render step failed still reaches its flush: the failure is
/// absorbed, the counters advance, and the buffer is transmitted.
pub proof fn lemma_render_failure_still_flushes(failed: bool)
    ensures
        spec_next_phase(TickPhase::Render, failed) == Some(TickPhase::Advance),
        spec_next_phase(TickPhase::Advance, false) == Some(TickPhase::Flush),
{
}

/// A failed flush ends the loop at once.
pub proof fn lemma_flush_failure_is_fatal()
    ensures
        spec_next_phase(TickPhase::Flush, true) == None::<TickPhase>,
{
}

} // verus!
