//! Long-press detection on the power button: after a falling edge the
//! caller samples the button every 100 ms and reports each sample.
use vstd::prelude::*;

verus! {

/// Samples (100 ms apart) the button must stay pressed to shut down: 3 s.
pub const SHUTDOWN_TICKS: u8 = 30;
/// Samples after which a press is judged even if still held: 5 s.
pub const MAX_TICKS: u8 = 50;
/// Time between two samples, in milliseconds.
pub const TICK_MS: u64 = 100;

/// What to do after a button sample.
#[derive(Clone, Copy, Debug, PartialEq, Eq, Structural)]
pub enum PressAction {
    /// Wait 100 ms and sample again.
    Wait,
    /// The press was long enough: shut the system down.
    Shutdown,
    /// The press was too short: do nothing.
    Ignore,
}

/// One press of the power button, counting the consecutive samples that
/// found it held.
pub struct LongPress {
    ticks: u8,
}

impl LongPress {
    #[verifier::type_invariant]
    spec fn bounded(self) -> bool {
        self.ticks <= MAX_TICKS
    }

    /// Samples so far that found the button held, each followed by a 100 ms wait.
    pub closed spec fn ticks(self) -> nat {
        self.ticks as nat
    }

    /// A press that has just begun (the falling edge was seen and the
    /// button reads pressed).
    pub fn new() -> (p: LongPress)
        ensures
            p.ticks() == 0,
    {
        LongPress { ticks: 0 }
    }

    /// Samples so far that found the button held.
    pub fn held_ticks(&self) -> (t: u8)
        ensures
            t == self.ticks(),
            t <= MAX_TICKS,
    {
        proof {
            use_type_invariant(self);
        }
        self.ticks
    }

    /// Takes one sample (`pressed` = the pin reads low). While the button
    /// is held and fewer than 50 samples were counted, the press goes on;
    /// otherwise it is judged: 30 or more held samples shut down.
    pub fn sample(&mut self, pressed: bool) -> (a: PressAction)
        ensures
            old(self).ticks() <= MAX_TICKS,
            final(self).ticks() <= MAX_TICKS,
            pressed && old(self).ticks() < MAX_TICKS ==> a == PressAction::Wait && final(self).ticks()
                == old(self).ticks() + 1,
            !(pressed && old(self).ticks() < MAX_TICKS) ==> final(self).ticks() == old(self).ticks() && (
            if old(self).ticks() >= SHUTDOWN_TICKS {
                a == PressAction::Shutdown
            } else {
                a == PressAction::Ignore
            }),
    {
        proof {
            use_type_invariant(&*self);
        }
        if pressed && self.ticks < MAX_TICKS {
            self.ticks = self.ticks + 1;
            PressAction::Wait
        } else if self.ticks >= SHUTDOWN_TICKS {
            PressAction::Shutdown
        } else {
            PressAction::Ignore
        }
    }
}

} // verus!
