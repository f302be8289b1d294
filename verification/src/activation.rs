//! The activation sequence of the CW2217B as a state machine: the caller
//! performs each requested register write, pause or status read and reports
//! back; the machine decides what comes next.
use vstd::prelude::*;

use crate::registers::{CONTROL_RUN, CONTROL_WAKE};

verus! {

/// Number of wake attempts.
pub const ACTIVATION_ATTEMPTS: u8 = 3;
/// Status polls per attempt, one second apart.
pub const POLLS_PER_ATTEMPT: u8 = 5;
/// Pause after each control-register write, in milliseconds.
pub const WAKE_PAUSE_MS: u64 = 500;
/// Pause after an inactive status read, in milliseconds.
pub const POLL_PAUSE_MS: u64 = 1000;

/// The IC state byte says the gauge runs: it is neither 0 nor 255 and one
/// of its bits 2 and 3 is set.
pub open spec fn ic_active(status: u8) -> bool {
    status != 255 && status != 0 && (status / 4) % 4 != 0
}

/// Whether an IC state byte says the gauge runs.
pub fn is_ic_active(status: u8) -> (b: bool)
    ensures
        b == ic_active(status),
        b == (status != 0 && status != 255 && ((status & 0x04) != 0 || (status & 0x08) != 0)),
{
    assert((status & 0x0C) != 0 <==> (status / 4) % 4 != 0) by (bit_vector);
    assert((status & 0x0C) != 0 <==> ((status & 0x04) != 0 || (status & 0x08) != 0)) by (bit_vector);
    status != 255 && status != 0 && (status & 0x0C) != 0
}

/// A status byte other than 0 and 255 is active exactly when bit 2 or bit 3
/// is set.
pub proof fn lemma_ic_active_bits(status: u8)
    ensures
        ic_active(status) <==> (status != 0 && status != 255 && ((status & 0x04) == 0x04 || (status
            & 0x08) == 0x08)),
{
    assert((status / 4) % 4 != 0 <==> ((status & 0x04) == 0x04 || (status & 0x08) == 0x08)) by (bit_vector);
}

/// Only bits 2 and 3 of a status byte other than 0 and 255 decide whether
/// the gauge is active; all other bits are ignored.
pub proof fn lemma_only_bits_two_and_three_matter(a: u8, b: u8)
    requires
        a != 0 && a != 255,
        b != 0 && b != 255,
        a & 0x0C == b & 0x0C,
    ensures
        ic_active(a) == ic_active(b),
{
    assert(a & 0x0C == b & 0x0C ==> ((a / 4) % 4 != 0 <==> (b / 4) % 4 != 0)) by (bit_vector);
}

/// Where the activation sequence stands.
#[derive(Clone, Copy, Debug, PartialEq, Eq, Structural)]
pub enum Stage {
    /// Nothing done yet.
    Start,
    /// The wake value is being written.
    Wake,
    /// Pausing after the wake write.
    WakePause,
    /// The run value is being written.
    Release,
    /// Pausing after the run write.
    ReleasePause,
    /// The IC state register is being read.
    Poll,
    /// Pausing after an inactive status read.
    PollPause,
    /// The sequence is over; `true` when the gauge became active.
    Done(bool),
}

/// What the caller must do next.
#[derive(Clone, Copy, Debug, PartialEq, Eq, Structural)]
pub enum ActivationAction {
    /// Write this value to the control register (the outcome is not used).
    WriteControl(u8),
    /// Sleep this many milliseconds.
    PauseMillis(u64),
    /// Read the IC state register and report the byte.
    ReadIcState,
    /// The sequence is over; `true` when the gauge became active.
    Finished(bool),
}

/// The activation sequence: up to three attempts, each writing the wake and
/// run values to the control register with half-second pauses, then polling
/// the IC state up to five times a second apart.
pub struct Activation {
    retries: u8,
    wait_secs: u8,
    stage: Stage,
    inactive_reads: Ghost<nat>,
}

impl Activation {
    #[verifier::type_invariant]
    spec fn consistent(self) -> bool {
        &&& self.retries <= ACTIVATION_ATTEMPTS
        &&& self.wait_secs <= POLLS_PER_ATTEMPT
        &&& match self.stage {
            Stage::Start => self.retries == 3 && self.inactive_reads@ == 0,
            Stage::Wake | Stage::WakePause | Stage::Release | Stage::ReleasePause => {
                self.retries < 3 && self.inactive_reads@ == (2 - self.retries) * 5
            },
            Stage::Poll => {
                &&& self.retries < 3
                &&& self.wait_secs >= 1
                &&& self.inactive_reads@ == (2 - self.retries) * 5 + (5 - self.wait_secs)
            },
            Stage::PollPause => {
                &&& self.retries < 3
                &&& self.wait_secs >= 1
                &&& self.inactive_reads@ == (2 - self.retries) * 5 + (5 - self.wait_secs) + 1
            },
            Stage::Done(ok) => !ok ==> self.inactive_reads@ == 15,
        }
    }

    /// Attempts not yet begun.
    pub closed spec fn retries(self) -> nat {
        self.retries as nat
    }

    /// Status polls left in the current attempt.
    pub closed spec fn wait_secs(self) -> nat {
        self.wait_secs as nat
    }

    /// The current stage.
    pub closed spec fn stage(self) -> Stage {
        self.stage
    }

    /// Status reads so far that found the gauge inactive.
    pub closed spec fn inactive_reads(self) -> nat {
        self.inactive_reads@
    }

    /// An upper bound on the calls still needed before `Finished` is
    /// returned; every call that answers the requested action of an
    /// unfinished sequence lowers it.
    pub open spec fn remaining(self) -> nat {
        let base = self.retries() * 15 + 1;
        match self.stage() {
            Stage::Start => self.retries() * 15,
            Stage::Wake => base + 13,
            Stage::WakePause => base + 12,
            Stage::Release => base + 11,
            Stage::ReleasePause => base + 10,
            Stage::Poll => (base + 2 * self.wait_secs() - 1) as nat,
            Stage::PollPause => (base + 2 * self.wait_secs() - 2) as nat,
            Stage::Done(_) => 0,
        }
    }

    /// A sequence that has not started.
    pub fn new() -> (a: Activation)
        ensures
            a.stage() == Stage::Start,
            a.retries() == 3,
            a.inactive_reads() == 0,
            a.remaining() == 45,
    {
        Activation { retries: ACTIVATION_ATTEMPTS, wait_secs: 0, stage: Stage::Start, inactive_reads: Ghost(0) }
    }

    /// Whether the next report must be a status byte.
    pub fn awaiting_status(&self) -> (b: bool)
        ensures
            b == (self.stage() == Stage::Poll),
    {
        match self.stage {
            Stage::Poll => true,
            _ => false,
        }
    }

    /// Begins the next attempt, or ends the sequence when none is left.
    fn begin_attempt(&mut self) -> (a: ActivationAction)
        requires
            old(self).stage() == Stage::Start || (old(self).stage() == Stage::PollPause
                && old(self).wait_secs() == 1),
            old(self).stage() == Stage::PollPause ==> old(self).inactive_reads() == (2
                - old(self).retries()) * 5 + 5,
        ensures
            old(self).retries() > 0 ==> {
                &&& a == ActivationAction::WriteControl(CONTROL_WAKE)
                &&& final(self).stage() == Stage::Wake
                &&& final(self).retries() == old(self).retries() - 1
            },
            old(self).retries() == 0 ==> {
                &&& a == ActivationAction::Finished(false)
                &&& final(self).stage() == Stage::Done(false)
                &&& final(self).retries() == 0
            },
            final(self).wait_secs() == old(self).wait_secs(),
            final(self).inactive_reads() == old(self).inactive_reads(),
    {
        proof {
            use_type_invariant(&*self);
        }
        if self.retries > 0 {
            *self = Activation {
                retries: self.retries - 1,
                wait_secs: self.wait_secs,
                stage: Stage::Wake,
                inactive_reads: self.inactive_reads,
            };
            ActivationAction::WriteControl(CONTROL_WAKE)
        } else {
            *self = Activation {
                retries: 0,
                wait_secs: self.wait_secs,
                stage: Stage::Done(false),
                inactive_reads: self.inactive_reads,
            };
            ActivationAction::Finished(false)
        }
    }

    /// Reports that the last write or pause is done (or starts the
    /// sequence) and returns the next action. While a status read is
    /// awaited, the read is asked for again and nothing changes.
    pub fn completed(&mut self) -> (a: ActivationAction)
        ensures
            old(self).stage() == Stage::Poll ==> a == ActivationAction::ReadIcState && *final(self)
                == *old(self),
            old(self).stage() == Stage::Start || (old(self).stage() == Stage::PollPause
                && old(self).wait_secs() == 1) ==> if old(self).retries() > 0 {
                &&& a == ActivationAction::WriteControl(CONTROL_WAKE)
                &&& final(self).stage() == Stage::Wake
                &&& final(self).retries() == old(self).retries() - 1
            } else {
                &&& a == ActivationAction::Finished(false)
                &&& final(self).stage() == Stage::Done(false)
                &&& final(self).retries() == 0
            },
            old(self).stage() == Stage::PollPause && old(self).wait_secs() != 1 ==> {
                &&& a == ActivationAction::ReadIcState
                &&& final(self).stage() == Stage::Poll
                &&& final(self).wait_secs() == old(self).wait_secs() - 1
                &&& final(self).retries() == old(self).retries()
            },
            old(self).stage() == Stage::Wake ==> {
                &&& a == ActivationAction::PauseMillis(WAKE_PAUSE_MS)
                &&& final(self).stage() == Stage::WakePause
                &&& final(self).retries() == old(self).retries()
                &&& final(self).wait_secs() == old(self).wait_secs()
            },
            old(self).stage() == Stage::WakePause ==> {
                &&& a == ActivationAction::WriteControl(CONTROL_RUN)
                &&& final(self).stage() == Stage::Release
                &&& final(self).retries() == old(self).retries()
                &&& final(self).wait_secs() == old(self).wait_secs()
            },
            old(self).stage() == Stage::Release ==> {
                &&& a == ActivationAction::PauseMillis(WAKE_PAUSE_MS)
                &&& final(self).stage() == Stage::ReleasePause
                &&& final(self).retries() == old(self).retries()
                &&& final(self).wait_secs() == old(self).wait_secs()
            },
            old(self).stage() == Stage::ReleasePause ==> {
                &&& a == ActivationAction::ReadIcState
                &&& final(self).stage() == Stage::Poll
                &&& final(self).wait_secs() == POLLS_PER_ATTEMPT
                &&& final(self).retries() == old(self).retries()
            },
            old(self).stage() matches Stage::Done(ok) ==> a == ActivationAction::Finished(ok)
                && *final(self) == *old(self),
            final(self).inactive_reads() == old(self).inactive_reads(),
            a == ActivationAction::Finished(true) ==> old(self).stage() == Stage::Done(true),
            a == ActivationAction::Finished(false) ==> final(self).inactive_reads() == 15,
            old(self).stage() !is Done && old(self).stage() != Stage::Poll ==> final(self).remaining()
                < old(self).remaining(),
    {
        proof {
            use_type_invariant(&*self);
        }
        let r = self.retries;
        let w = self.wait_secs;
        let g = self.inactive_reads;
        match self.stage {
            Stage::Start => self.begin_attempt(),
            Stage::Wake => {
                *self = Activation { retries: r, wait_secs: w, stage: Stage::WakePause, inactive_reads: g };
                ActivationAction::PauseMillis(WAKE_PAUSE_MS)
            },
            Stage::WakePause => {
                *self = Activation { retries: r, wait_secs: w, stage: Stage::Release, inactive_reads: g };
                ActivationAction::WriteControl(CONTROL_RUN)
            },
            Stage::Release => {
                *self = Activation { retries: r, wait_secs: w, stage: Stage::ReleasePause, inactive_reads: g };
                ActivationAction::PauseMillis(WAKE_PAUSE_MS)
            },
            Stage::ReleasePause => {
                *self = Activation {
                    retries: r,
                    wait_secs: POLLS_PER_ATTEMPT,
                    stage: Stage::Poll,
                    inactive_reads: g,
                };
                ActivationAction::ReadIcState
            },
            Stage::PollPause => {
                if w > 1 {
                    *self = Activation { retries: r, wait_secs: w - 1, stage: Stage::Poll, inactive_reads: g };
                    ActivationAction::ReadIcState
                } else {
                    self.begin_attempt()
                }
            },
            Stage::Poll => ActivationAction::ReadIcState,
            Stage::Done(ok) => ActivationAction::Finished(ok),
        }
    }

    /// Reports the IC state byte that was read and returns the next action:
    /// success when it is active, otherwise a one-second pause.
    pub fn status_read(&mut self, status: u8) -> (a: ActivationAction)
        requires
            old(self).stage() == Stage::Poll,
        ensures
            old(self).inactive_reads() < 15,
            ic_active(status) ==> {
                &&& a == ActivationAction::Finished(true)
                &&& final(self).stage() == Stage::Done(true)
                &&& final(self).inactive_reads() == old(self).inactive_reads()
            },
            !ic_active(status) ==> {
                &&& a == ActivationAction::PauseMillis(POLL_PAUSE_MS)
                &&& final(self).stage() == Stage::PollPause
                &&& final(self).inactive_reads() == old(self).inactive_reads() + 1
            },
            final(self).retries() == old(self).retries(),
            final(self).wait_secs() == old(self).wait_secs(),
            final(self).remaining() < old(self).remaining(),
    {
        proof {
            use_type_invariant(&*self);
        }
        let r = self.retries;
        let w = self.wait_secs;
        if is_ic_active(status) {
            *self = Activation { retries: r, wait_secs: w, stage: Stage::Done(true), inactive_reads: self.inactive_reads };
            ActivationAction::Finished(true)
        } else {
            let ghost n = self.inactive_reads@ + 1;
            *self = Activation { retries: r, wait_secs: w, stage: Stage::PollPause, inactive_reads: Ghost(n) };
            ActivationAction::PauseMillis(POLL_PAUSE_MS)
        }
    }
}

} // verus!
