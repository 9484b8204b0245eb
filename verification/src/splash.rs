//! The splash screen: shown for three seconds, after which the login program
//! is started once and the splash closes.

use vstd::prelude::*;

verus! {

/// How long the splash screen is shown, in seconds.
pub const SPLASH_SECONDS: u64 = 3;

/// The program started when the splash screen ends.
pub const LOGIN_PROGRAM: &'static str = "xiee-login";

/// What the splash screen does in one frame.
#[derive(Clone, Copy, Debug, PartialEq, Eq, Structural)]
pub enum SplashStep {
    /// Draw the logo and the progress bar.
    Draw,
    /// Start the login program and close the splash screen.
    LaunchLogin,
}

/// The state of the splash screen: whether login has been started.
pub struct SplashState {
    pub launched: bool,
}

/// One frame of the splash screen, from whether login was already started
/// and whether the showing time is up, to the new state and the step taken.
pub open spec fn splash_transition(launched: bool, time_up: bool) -> (bool, SplashStep) {
    if time_up && !launched {
        (true, SplashStep::LaunchLogin)
    } else {
        (launched, SplashStep::Draw)
    }
}

/// How many times login is started over a run of frames, given for each
/// frame whether the showing time is up.
pub open spec fn launches(launched: bool, frames: Seq<bool>) -> nat
    decreases frames.len(),
{
    if frames.len() == 0 {
        0
    } else {
        let (next, step) = splash_transition(launched, frames[0]);
        (if step == SplashStep::LaunchLogin {
            1nat
        } else {
            0nat
        }) + launches(next, frames.drop_first())
    }
}

impl SplashState {
    /// A splash screen that has not started login yet.
    pub fn new() -> (s: SplashState)
        ensures
            !s.launched,
    {
        SplashState { launched: false }
    }

    /// One frame: once the time is up, login is started, the first time only.
    pub fn step(&mut self, time_up: bool) -> (r: SplashStep)
        ensures
            (final(self).launched, r) == splash_transition(old(self).launched, time_up),
    {
        if time_up && !self.launched {
            self.launched = true;
            SplashStep::LaunchLogin
        } else {
            SplashStep::Draw
        }
    }
}

/// Login is started at most once, whatever the frames; and never again once
/// it has been started.
pub proof fn lemma_login_started_at_most_once(launched: bool, frames: Seq<bool>)
    ensures
        launches(launched, frames) <= 1,
        launched ==> launches(launched, frames) == 0,
    decreases frames.len(),
{
    if frames.len() > 0 {
        let (next, step) = splash_transition(launched, frames[0]);
        lemma_login_started_at_most_once(next, frames.drop_first());
    }
}

/// Login is started exactly once over a run of frames from a fresh splash
/// screen when some frame finds the time up, and never when none does.
pub proof fn lemma_login_started_when_time_up(launched: bool, frames: Seq<bool>)
    ensures
        !launched && (exists|i: int| 0 <= i < frames.len() && #[trigger] frames[i]) ==> launches(
            launched,
            frames,
        ) == 1,
        (forall|i: int| 0 <= i < frames.len() ==> !#[trigger] frames[i]) ==> launches(
            launched,
            frames,
        ) == 0,
    decreases frames.len(),
{
    if frames.len() > 0 {
        let (next, step) = splash_transition(launched, frames[0]);
        lemma_login_started_when_time_up(next, frames.drop_first());
        lemma_login_started_at_most_once(next, frames.drop_first());
        if !launched && !frames[0] && (exists|i: int| 0 <= i < frames.len() && #[trigger] frames[i]) {
            let i = choose|i: int| 0 <= i < frames.len() && #[trigger] frames[i];
            assert(frames.drop_first()[i - 1]);
        }
        if forall|i: int| 0 <= i < frames.len() ==> !#[trigger] frames[i] {
            assert forall|i: int| 0 <= i < frames.drop_first().len() implies !#[trigger] frames.drop_first()[i] by {
                assert(frames.drop_first()[i] == frames[i + 1]);
            }
        }
    }
}

/// A frame that finds the time up starts login on a splash screen that has
/// not started it, and takes the login as started from then on.
pub proof fn lemma_step_when_time_up(launched: bool)
    ensures
        splash_transition(false, true) == (true, SplashStep::LaunchLogin),
        splash_transition(launched, false) == (launched, SplashStep::Draw),
        splash_transition(true, true) == (true, SplashStep::Draw),
{
}

} // verus!
