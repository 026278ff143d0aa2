//! The stopwatch state machine: elapsed time, the running flag and the exit
//! flag, the four transitions, and the per-frame driver step that applies at
//! most one key event and then advances time. Exit is absorbing: once it has
//! been requested, a driver step changes nothing.

use vstd::prelude::*;

use crate::event::Action;
use crate::event::KeyEvent;
use crate::event::action_of;
use crate::event::classify;
use crate::theme::Theme;
use crate::theme::default_theme;

verus! {

/// The stopwatch: elapsed milliseconds since the last reset, whether time is
/// accumulating, whether the user asked to quit, and the display theme.
#[derive(Clone, Copy, Debug, PartialEq, Eq, Structural)]
pub struct Timers {
    /// Accumulated running time in milliseconds; frozen while paused, zeroed
    /// by a reset.
    pub elapsed: u64,
    /// True while the stopwatch is counting.
    pub running: bool,
    /// True once the user asked to quit; never cleared.
    pub exit: bool,
    /// Colors handed to the renderer each frame.
    pub theme: Theme,
}

/// The state at creation: zero elapsed, paused, not exiting, default theme.
pub open spec fn initial_timers() -> Timers {
    Timers { elapsed: 0, running: false, exit: false, theme: default_theme() }
}

/// Flip the running flag; nothing else changes.
pub open spec fn spec_toggled(t: Timers) -> Timers {
    Timers { running: !t.running, ..t }
}

/// Zero the elapsed time; running and exit are untouched.
pub open spec fn spec_reset(t: Timers) -> Timers {
    Timers { elapsed: 0, ..t }
}

/// Set the exit flag; nothing else changes.
pub open spec fn spec_exit_requested(t: Timers) -> Timers {
    Timers { exit: true, ..t }
}

/// Add `delta` milliseconds while running; a no-op while paused.
pub open spec fn spec_advanced(t: Timers, delta: u64) -> Timers
    recommends
        t.running ==> t.elapsed + delta <= u64::MAX,
{
    if t.running {
        Timers { elapsed: (t.elapsed + delta) as u64, ..t }
    } else {
        t
    }
}

/// Apply the transition one classified key event asks for.
pub open spec fn spec_applied(t: Timers, a: Action) -> Timers {
    match a {
        Action::Exit => spec_exit_requested(t),
        Action::Toggle => spec_toggled(t),
        Action::Reset => spec_reset(t),
        Action::Ignore => t,
    }
}

/// Apply at most one event: the one the poll returned, if any.
pub open spec fn spec_handled(t: Timers, ev: Option<KeyEvent>) -> Timers {
    match ev {
        Some(e) => spec_applied(t, action_of(e)),
        None => t,
    }
}

/// One frame of the driver, entered with the exit flag still clear: handle
/// the event first, then advance by the frame budget using the
/// post-transition running flag — unless the event requested exit, in which
/// case the frame ends at once and time is no longer advanced.
pub open spec fn spec_step(t: Timers, ev: Option<KeyEvent>, delta: u64) -> Timers {
    let u = spec_handled(t, ev);
    if u.exit {
        u
    } else {
        spec_advanced(u, delta)
    }
}

/// The frame budget still fits in the elapsed counter after the event's
/// transition: the one machine limit a driver of the loop must respect.
pub open spec fn frame_fits(t: Timers, ev: Option<KeyEvent>, delta: u64) -> bool {
    spec_handled(t, ev).running ==> spec_handled(t, ev).elapsed + delta <= u64::MAX
}

/// One frame of the driver from any state: once exit has been requested the
/// state is left untouched.
pub open spec fn spec_tick(t: Timers, ev: Option<KeyEvent>, delta: u64) -> Timers {
    if t.exit {
        t
    } else {
        spec_step(t, ev, delta)
    }
}

/// The state after `n` toggles in a row.
pub open spec fn spec_toggled_n(t: Timers, n: nat) -> Timers
    decreases n,
{
    if n == 0 {
        t
    } else {
        spec_toggled(spec_toggled_n(t, (n - 1) as nat))
    }
}

/// Toggling the running flag is an involution: toggling twice restores the
/// state exactly.
pub proof fn lemma_toggle_involution(t: Timers)
    ensures
        spec_toggled(spec_toggled(t)) == t,
{
}

/// After any even number of toggles the state — in particular the running
/// flag — equals what it started as.
pub proof fn lemma_toggle_even(t: Timers, n: nat)
    requires
        n % 2 == 0,
    ensures
        spec_toggled_n(t, n) == t,
    decreases n,
{
    if n != 0 {
        lemma_toggle_even(t, (n - 2) as nat);
        assert(spec_toggled_n(t, (n - 1) as nat) == spec_toggled(spec_toggled_n(t, (n - 2) as nat)));
    }
}

/// Accumulation is additive: advancing by `d1` and then by `d2` yields the
/// same state as advancing once by `d1 + d2`, running or paused.
pub proof fn lemma_advance_additive(t: Timers, d1: u64, d2: u64)
    requires
        t.elapsed + d1 + d2 <= u64::MAX,
    ensures
        spec_advanced(spec_advanced(t, d1), d2) == spec_advanced(t, (d1 + d2) as u64),
{
}

/// The state after running the driver over a whole sequence of frames, each
/// frame a polled event (or none) and a frame budget.
pub open spec fn spec_run(t: Timers, frames: Seq<(Option<KeyEvent>, u64)>) -> Timers
    decreases frames.len(),
{
    if frames.len() == 0 {
        t
    } else {
        spec_run(spec_tick(t, frames[0].0, frames[0].1), frames.drop_first())
    }
}

/// Exit is absorbing at the driver level: once exit has been requested, no
/// sequence of further frames toggles, resets or advances anything — the
/// state stays exactly as it was.
pub proof fn lemma_exit_absorbing(t: Timers, frames: Seq<(Option<KeyEvent>, u64)>)
    requires
        t.exit,
    ensures
        spec_run(t, frames) == t,
    decreases frames.len(),
{
    if frames.len() != 0 {
        lemma_exit_absorbing(t, frames.drop_first());
    }
}

impl Default for Timers {
    /// A fresh stopwatch: paused, at zero, not exiting, default theme.
    fn default() -> (r: Timers)
        ensures
            r == initial_timers(),
    {
        Timers { elapsed: 0, running: false, exit: false, theme: Theme::default() }
    }
}

impl Timers {
    /// The same stopwatch with the given display theme.
    pub fn with_theme(self, theme: Theme) -> (r: Timers)
        ensures
            r.theme == theme,
            r.elapsed == self.elapsed,
            r.running == self.running,
            r.exit == self.exit,
    {
        Timers { theme, ..self }
    }

    /// Flip the running flag; elapsed time and the exit flag are untouched.
    /// Toggling twice returns to the prior state.
    pub fn toggle_running(&mut self)
        ensures
            *final(self) == spec_toggled(*old(self)),
            final(self).running == !old(self).running,
            final(self).elapsed == old(self).elapsed,
            final(self).exit == old(self).exit,
    {
        self.running = !self.running;
    }

    /// Zero the elapsed time, whether running or paused; the running and
    /// exit flags are untouched.
    pub fn reset(&mut self)
        ensures
            *final(self) == spec_reset(*old(self)),
            final(self).elapsed == 0,
            final(self).running == old(self).running,
            final(self).exit == old(self).exit,
    {
        self.elapsed = 0;
    }

    /// Set the exit flag; nothing else changes. One-way: nothing clears it.
    pub fn request_exit(&mut self)
        ensures
            *final(self) == spec_exit_requested(*old(self)),
            final(self).exit,
            final(self).elapsed == old(self).elapsed,
            final(self).running == old(self).running,
    {
        self.exit = true;
    }

    /// Add `delta` milliseconds of running time; a no-op while paused.
    pub fn advance(&mut self, delta: u64)
        requires
            old(self).running ==> old(self).elapsed + delta <= u64::MAX,
        ensures
            *final(self) == spec_advanced(*old(self), delta),
            old(self).running ==> final(self).elapsed == old(self).elapsed + delta,
            !old(self).running ==> *final(self) == *old(self),
    {
        if self.running {
            self.elapsed = self.elapsed + delta;
        }
    }

    /// Apply the transition one classified key event asks for.
    pub fn apply(&mut self, a: Action)
        ensures
            *final(self) == spec_applied(*old(self), a),
    {
        match a {
            Action::Exit => self.request_exit(),
            Action::Toggle => self.toggle_running(),
            Action::Reset => self.reset(),
            Action::Ignore => {},
        }
    }

    /// One frame of the interaction loop: apply at most the transition of the
    /// polled event, then — unless exit was or is now requested — advance by
    /// the frame budget `delta`, using the post-transition running flag.
    /// Returns whether the loop should run another frame. Once exit has been
    /// requested, the state is left untouched and no further frame runs.
    pub fn tick(&mut self, ev: Option<KeyEvent>, delta: u64) -> (cont: bool)
        requires
            !old(self).exit ==> frame_fits(*old(self), ev, delta),
        ensures
            *final(self) == spec_tick(*old(self), ev, delta),
            cont == !final(self).exit,
            old(self).exit ==> *final(self) == *old(self) && !cont,
    {
        if self.exit {
            return false;
        }
        match ev {
            Some(e) => {
                let a = classify(&e);
                self.apply(a);
            },
            None => {},
        }
        if self.exit {
            return false;
        }
        self.advance(delta);
        true
    }
}

} // verus!
