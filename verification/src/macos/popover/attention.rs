//! Drawing attention to a pull request.

use vstd::prelude::*;

verus! {

/// How long a phase lasts, in nanoseconds.
pub const INTERVAL: u128 = 300_000_000;

/// How many phases there are.
pub const PHASES: u128 = 6;

/// A pull request that flashes, and when that began, in nanoseconds of a clock that never
/// goes back.
#[derive(Debug)]
pub struct Flash {
    pub pr: String,
    pub started: u64,
}

/// The contents of a [`Flash`].
#[verifier::ext_equal]
pub struct FlashView {
    pub pr: Seq<char>,
    pub started: u64,
}

impl View for Flash {
    type V = FlashView;

    open spec fn view(&self) -> FlashView {
        FlashView { pr: self.pr@, started: self.started }
    }
}

impl DeepView for Flash {
    type V = FlashView;

    open spec fn deep_view(&self) -> FlashView {
        self@
    }
}

impl FlashView {
    /// How long the pull request has been flashing.
    pub open spec fn elapsed(self, now: u128) -> nat {
        if now < self.started {
            0
        } else {
            (now - self.started) as nat
        }
    }

    /// Whether the pull request is blue, and when that changes: three blue pulses apart by
    /// the usual color, and then nothing more.
    pub open spec fn phase_at(self, now: u128) -> Option<(bool, u128)> {
        let phase = self.elapsed(now) / INTERVAL as nat;
        if phase >= PHASES {
            None
        } else {
            Some((phase % 2 == 0, (self.started + INTERVAL * (phase + 1)) as u128))
        }
    }
}

impl Flash {
    /// A pull request that begins to flash.
    pub fn new(pr: String, started: u64) -> (r: Self)
        ensures
            r@ == (FlashView { pr: pr@, started }),
    {
        Flash { pr, started }
    }

    /// Whether the pull request is blue, and when that changes.
    pub fn phase(&self, now: u128) -> (r: Option<(bool, u128)>)
        ensures
            r == self@.phase_at(now),
    {
        let started: u128 = self.started as u128;
        let elapsed: u128 = if now < started {
            0
        } else {
            now - started
        };
        let phase: u128 = elapsed / INTERVAL;
        if phase >= PHASES {
            return None;
        }
        Some((phase % 2 == 0, started + INTERVAL * (phase + 1)))
    }
}

// ---------------------------------------------------------------- laws

/// While a pull request flashes, a change is always to come, within one interval; at that
/// moment the color is the other one or the flashing is over.
pub proof fn flashing_goes_on(flash: FlashView, now: u128)
    requires
        flash.phase_at(now) is Some,
        now >= flash.started,
    ensures
        ({
            let (blue, next) = flash.phase_at(now)->Some_0;
            &&& now < next <= now + INTERVAL
            &&& match flash.phase_at(next) {
                Some((then, _)) => then == !blue,
                None => !blue && next == flash.started + INTERVAL * PHASES,
            }
        }),
{
    let elapsed = (now - flash.started) as nat;
    let phase = elapsed / INTERVAL as nat;
    let next = flash.phase_at(now)->Some_0.1;
    assert(next - flash.started == INTERVAL * (phase + 1));
    assert((next - flash.started) as nat / INTERVAL as nat == phase + 1);
}

} // verus!
