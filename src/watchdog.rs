//! Independent-watchdog start-up: the register accesses that start the
//! watchdog with the longest timeout, and the feed.

use vstd::prelude::*;

verus! {

/// Key that starts the watchdog.
pub const KEY_START: u32 = 0xCCCC;
/// Key that unlocks the prescaler and reload registers.
pub const KEY_ENABLE_ACCESS: u32 = 0x5555;
/// Key that reloads the counter (a feed); it also locks the registers again.
pub const KEY_RELOAD: u32 = 0xAAAA;
/// Prescaler code for a divider of 256.
pub const PRESCALER_DIVIDE_BY_256: u32 = 6;
/// Largest reload value.
pub const RELOAD_MAX: u32 = 0xFFF;
/// Status bits: prescaler, reload and window value updates in progress.
pub const SR_UPDATES: u32 = 0x7;
/// Status reads allowed while waiting for the updates to complete. The
/// updates take a few watchdog clock cycles; past this budget start-up goes
/// on rather than hang before the watchdog is running.
pub const UPDATE_POLL_BUDGET: u32 = 0x10_0000;

/// A watchdog register access.
#[derive(Clone, Copy, Debug, PartialEq, Eq, Structural)]
pub enum WatchdogAction {
    WriteKey(u32),
    SetPrescaler(u32),
    SetReload(u32),
    /// Read the status register and report it.
    ReadStatus,
    /// Start-up is complete.
    Done,
}

#[derive(Clone, Copy, Debug, PartialEq, Eq, Structural)]
pub enum WatchdogPhase {
    EnableAccess,
    Prescaler,
    Reload,
    Poll,
    WaitUpdates,
    Finished,
}

/// The start-up sequence; each step follows the completion of the previous
/// access, with `status` the status register when the previous access read it.
#[derive(Clone, Copy, Debug, PartialEq, Eq, Structural)]
pub struct WatchdogSetup {
    pub phase: WatchdogPhase,
    /// Status reads left before the wait for the updates is abandoned.
    pub polls_left: u32,
}

/// The access that feeds the watchdog.
pub fn feed() -> (r: WatchdogAction)
    ensures
        r == WatchdogAction::WriteKey(KEY_RELOAD),
{
    WatchdogAction::WriteKey(KEY_RELOAD)
}

/// Begin start-up: start the watchdog.
pub fn setup_and_start() -> (r: (WatchdogSetup, WatchdogAction))
    ensures
        r.0.phase == WatchdogPhase::EnableAccess,
        r.0.polls_left == UPDATE_POLL_BUDGET,
        r.1 == WatchdogAction::WriteKey(KEY_START),
{
    (
        WatchdogSetup { phase: WatchdogPhase::EnableAccess, polls_left: UPDATE_POLL_BUDGET },
        WatchdogAction::WriteKey(KEY_START),
    )
}

impl WatchdogSetup {
    /// An upper bound on the steps left before start-up is complete.
    pub open spec fn remaining(self) -> nat {
        match self.phase {
            WatchdogPhase::EnableAccess => (self.polls_left + 5) as nat,
            WatchdogPhase::Prescaler => (self.polls_left + 4) as nat,
            WatchdogPhase::Reload => (self.polls_left + 3) as nat,
            WatchdogPhase::Poll => (self.polls_left + 2) as nat,
            WatchdogPhase::WaitUpdates => (self.polls_left + 1) as nat,
            WatchdogPhase::Finished => 0,
        }
    }

    /// Advance: unlock the registers, set the /256 prescaler, set the
    /// largest reload value, read the status until no update is pending or
    /// the poll budget is spent, then reload the counter.
    pub fn step(&mut self, status: u32) -> (a: WatchdogAction)
        ensures
            old(self).phase == WatchdogPhase::EnableAccess ==> final(self).phase
                == WatchdogPhase::Prescaler && a == WatchdogAction::WriteKey(KEY_ENABLE_ACCESS),
            old(self).phase == WatchdogPhase::Prescaler ==> final(self).phase
                == WatchdogPhase::Reload && a == WatchdogAction::SetPrescaler(
                PRESCALER_DIVIDE_BY_256,
            ),
            old(self).phase == WatchdogPhase::Reload ==> final(self).phase == WatchdogPhase::Poll
                && a == WatchdogAction::SetReload(RELOAD_MAX),
            old(self).phase == WatchdogPhase::Poll ==> final(self).phase
                == WatchdogPhase::WaitUpdates && a == WatchdogAction::ReadStatus,
            old(self).phase != WatchdogPhase::WaitUpdates ==> final(self).polls_left
                == old(self).polls_left,
            old(self).phase == WatchdogPhase::WaitUpdates && status & SR_UPDATES != 0
                && old(self).polls_left > 0 ==> final(self).phase == WatchdogPhase::WaitUpdates
                && final(self).polls_left == old(self).polls_left - 1
                && a == WatchdogAction::ReadStatus,
            old(self).phase == WatchdogPhase::WaitUpdates && (status & SR_UPDATES == 0
                || old(self).polls_left == 0) ==> final(self).phase == WatchdogPhase::Finished
                && a == WatchdogAction::WriteKey(KEY_RELOAD),
            old(self).phase == WatchdogPhase::Finished ==> final(self).phase
                == WatchdogPhase::Finished && a == WatchdogAction::Done,
            old(self).phase != WatchdogPhase::Finished ==> final(self).remaining() < old(
                self,
            ).remaining(),
    {
        match self.phase {
            WatchdogPhase::EnableAccess => {
                self.phase = WatchdogPhase::Prescaler;
                WatchdogAction::WriteKey(KEY_ENABLE_ACCESS)
            },
            WatchdogPhase::Prescaler => {
                self.phase = WatchdogPhase::Reload;
                WatchdogAction::SetPrescaler(PRESCALER_DIVIDE_BY_256)
            },
            WatchdogPhase::Reload => {
                self.phase = WatchdogPhase::Poll;
                WatchdogAction::SetReload(RELOAD_MAX)
            },
            WatchdogPhase::Poll => {
                self.phase = WatchdogPhase::WaitUpdates;
                WatchdogAction::ReadStatus
            },
            WatchdogPhase::WaitUpdates => {
                if status & SR_UPDATES != 0 && self.polls_left > 0 {
                    self.polls_left = self.polls_left - 1;
                    WatchdogAction::ReadStatus
                } else {
                    self.phase = WatchdogPhase::Finished;
                    WatchdogAction::WriteKey(KEY_RELOAD)
                }
            },
            WatchdogPhase::Finished => WatchdogAction::Done,
        }
    }
}

} // verus!
