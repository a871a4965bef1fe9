//! Clearing the page of prompts and advertisements.

use vstd::prelude::*;
use crate::aternos::errors::BrowserError;

verus! {

/// How often the page is swept.
pub const BLOCKER_DISMISS_ATTEMPTS: u64 = 3;

/// The pause after an advertisement was closed.
pub const BLOCKER_SETTLE_MS: u64 = 1_000;

/// What a sweep asks for next.
#[derive(Debug)]
pub enum SweepAction {
    DismissAdblock,
    DismissNotification,
    ClickDialogs,
    LookForAd,
    CloseAd,
    Pause { pause_ms: u64 },
    Finish { end: Result<(), BrowserError> },
}

/// What came of an action: for a look or a dismissal, whether there was
/// something.
#[derive(Debug)]
pub enum SweepEvent {
    Done { found: Result<bool, BrowserError> },
}

/// Which outcome a sweep waits for.
#[derive(Clone, Copy, Debug, PartialEq, Eq, Structural)]
pub enum SweepPhase {
    Adblock,
    Notification,
    Dialogs,
    FirstLook,
    Closing,
    Settling,
    SecondLook,
    Over,
}

/// The sweeping of a page: the number of the sweep, counted from zero, and
/// whether it has dismissed an ad-blocker prompt.
#[derive(Clone, Copy, Debug, PartialEq, Eq, Structural)]
pub struct Sweep {
    pub round: u64,
    pub dismissed: bool,
    pub phase: SweepPhase,
}

/// The next sweep, or the end after the last one.
pub open spec fn next_round(sweep: Sweep) -> (Sweep, SweepAction) {
    if sweep.round + 1 < BLOCKER_DISMISS_ATTEMPTS {
        (
            Sweep { round: (sweep.round + 1) as u64, dismissed: false, phase: SweepPhase::Adblock },
            SweepAction::DismissAdblock,
        )
    } else {
        (Sweep { phase: SweepPhase::Over, ..sweep }, SweepAction::Finish { end: Ok(()) })
    }
}

/// What a sweep does after an action that succeeded. A page is clean once a
/// sweep dismissed no prompt and then shows no advertisement.
pub open spec fn sweep_step(sweep: Sweep, found: bool) -> (Sweep, SweepAction) {
    match sweep.phase {
        SweepPhase::Adblock => (
            Sweep { dismissed: found, phase: SweepPhase::Notification, ..sweep },
            SweepAction::DismissNotification,
        ),
        SweepPhase::Notification => (
            Sweep { phase: SweepPhase::Dialogs, ..sweep },
            SweepAction::ClickDialogs,
        ),
        SweepPhase::Dialogs => (
            Sweep { phase: SweepPhase::FirstLook, ..sweep },
            SweepAction::LookForAd,
        ),
        SweepPhase::FirstLook => if found {
            (Sweep { phase: SweepPhase::Closing, ..sweep }, SweepAction::CloseAd)
        } else {
            settled(sweep)
        },
        SweepPhase::Closing => (
            Sweep { phase: SweepPhase::Settling, ..sweep },
            SweepAction::Pause { pause_ms: BLOCKER_SETTLE_MS },
        ),
        SweepPhase::Settling => settled(sweep),
        SweepPhase::SecondLook => if found {
            next_round(sweep)
        } else {
            (Sweep { phase: SweepPhase::Over, ..sweep }, SweepAction::Finish { end: Ok(()) })
        },
        SweepPhase::Over => arbitrary(),
    }
}

/// The advertisement, if any, has been dealt with.
pub open spec fn settled(sweep: Sweep) -> (Sweep, SweepAction) {
    if sweep.dismissed {
        next_round(sweep)
    } else {
        (Sweep { phase: SweepPhase::SecondLook, ..sweep }, SweepAction::LookForAd)
    }
}

impl Sweep {
    /// A sweep that is about to begin, and what it asks for first.
    pub fn begin() -> (r: (Sweep, SweepAction))
        ensures
            r.0 == (Sweep { round: 0, dismissed: false, phase: SweepPhase::Adblock }),
            r.1 == SweepAction::DismissAdblock,
    {
        (
            Sweep { round: 0, dismissed: false, phase: SweepPhase::Adblock },
            SweepAction::DismissAdblock,
        )
    }

    fn advance_round(self) -> (r: (Sweep, SweepAction))
        ensures
            r == next_round(self),
    {
        if self.round < BLOCKER_DISMISS_ATTEMPTS - 1 {
            (
                Sweep { round: self.round + 1, dismissed: false, phase: SweepPhase::Adblock },
                SweepAction::DismissAdblock,
            )
        } else {
            (
                Sweep { round: self.round, dismissed: self.dismissed, phase: SweepPhase::Over },
                SweepAction::Finish { end: Ok(()) },
            )
        }
    }

    fn settle(self) -> (r: (Sweep, SweepAction))
        ensures
            r == settled(self),
    {
        if self.dismissed {
            self.advance_round()
        } else {
            self.to(SweepPhase::SecondLook, SweepAction::LookForAd)
        }
    }

    fn to(self, phase: SweepPhase, action: SweepAction) -> (r: (Sweep, SweepAction))
        ensures
            r == (Sweep { phase, ..self }, action),
    {
        (Sweep { round: self.round, dismissed: self.dismissed, phase }, action)
    }

    /// Takes the outcome of an action to the next one. An error ends the sweep.
    pub fn dismiss_page_blockers(self, event: SweepEvent) -> (r: (Sweep, SweepAction))
        requires
            !(self.phase is Over),
        ensures
            match event {
                SweepEvent::Done { found: Ok(found) } => r == sweep_step(self, found),
                SweepEvent::Done { found: Err(error) } => r == (
                    Sweep { phase: SweepPhase::Over, ..self },
                    SweepAction::Finish { end: Err(error) },
                ),
            },
    {
        let SweepEvent::Done { found } = event;
        let found = match found {
            Ok(found) => found,
            Err(error) => {
                return self.to(SweepPhase::Over, SweepAction::Finish { end: Err(error) });
            },
        };
        match self.phase {
            SweepPhase::Adblock => (
                Sweep { round: self.round, dismissed: found, phase: SweepPhase::Notification },
                SweepAction::DismissNotification,
            ),
            SweepPhase::Notification => self.to(SweepPhase::Dialogs, SweepAction::ClickDialogs),
            SweepPhase::Dialogs => self.to(SweepPhase::FirstLook, SweepAction::LookForAd),
            SweepPhase::FirstLook => {
                if found {
                    self.to(SweepPhase::Closing, SweepAction::CloseAd)
                } else {
                    self.settle()
                }
            },
            SweepPhase::Closing => self.to(
                SweepPhase::Settling,
                SweepAction::Pause { pause_ms: BLOCKER_SETTLE_MS },
            ),
            SweepPhase::Settling => self.settle(),
            SweepPhase::SecondLook => {
                if found {
                    self.advance_round()
                } else {
                    self.to(SweepPhase::Over, SweepAction::Finish { end: Ok(()) })
                }
            },
            SweepPhase::Over => vstd::pervasive::unreached(),
        }
    }
}

/// How many actions a sweep asks for at most before it is over.
pub open spec fn sweep_left(sweep: Sweep) -> int {
    let in_round = match sweep.phase {
        SweepPhase::Adblock => 7int,
        SweepPhase::Notification => 6,
        SweepPhase::Dialogs => 5,
        SweepPhase::FirstLook => 4,
        SweepPhase::Closing => 3,
        SweepPhase::Settling => 2,
        SweepPhase::SecondLook => 1,
        SweepPhase::Over => 0,
    };
    if sweep.phase is Over {
        0
    } else {
        (BLOCKER_DISMISS_ATTEMPTS - 1 - sweep.round) * 7 + in_round
    }
}

/// A sweep is over after three rounds of seven actions, whatever the page shows.
pub proof fn sweeps_end(sweep: Sweep, found: bool)
    requires
        !(sweep.phase is Over),
        sweep.round < BLOCKER_DISMISS_ATTEMPTS,
    ensures
        sweep_step(sweep, found).0.round < BLOCKER_DISMISS_ATTEMPTS,
        0 <= sweep_left(sweep_step(sweep, found).0) < sweep_left(sweep) <= 21,
{
}

} // verus!
