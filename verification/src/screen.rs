//! The navigable screen state machine: the splash screen first, then the
//! details, graphs and settings screens, cycling freely. Navigation is
//! ignored while the splash screen shows; nothing ever returns to it.

use vstd::prelude::*;

verus! {

/// One screen of the dashboard; exactly one is active at any time.
#[derive(Clone, Copy, Debug, PartialEq, Eq, Structural)]
pub enum ScreenState {
    Splash,
    Details,
    Graphs,
    Settings,
}

/// A navigation target: any screen except the splash screen.
#[derive(Clone, Copy, Debug, PartialEq, Eq, Structural)]
pub enum NavTarget {
    Details,
    Graphs,
    Settings,
}

/// The two trigger kinds the machine reacts to.
#[derive(Clone, Copy, Debug, PartialEq, Eq, Structural)]
pub enum ScreenEvent {
    /// The one-shot splash timer has just elapsed.
    SplashElapsed,
    /// The user asked for a screen.
    NavigateTo(NavTarget),
}

/// The screen a navigation target denotes.
pub open spec fn screen_of(t: NavTarget) -> ScreenState {
    match t {
        NavTarget::Details => ScreenState::Details,
        NavTarget::Graphs => ScreenState::Graphs,
        NavTarget::Settings => ScreenState::Settings,
    }
}

/// The whole transition relation. `SplashElapsed` moves Splash to Details
/// and is ignored elsewhere; `NavigateTo` is ignored on Splash and lands on
/// its target anywhere else (a self-transition is a legal no-op).
pub open spec fn next_screen(s: ScreenState, e: ScreenEvent) -> ScreenState {
    match e {
        ScreenEvent::SplashElapsed => if s == ScreenState::Splash {
            ScreenState::Details
        } else {
            s
        },
        ScreenEvent::NavigateTo(t) => if s == ScreenState::Splash {
            s
        } else {
            screen_of(t)
        },
    }
}

/// The state after applying a sequence of events in order.
pub open spec fn run_screen(s: ScreenState, events: Seq<ScreenEvent>) -> ScreenState
    decreases events.len(),
{
    if events.len() == 0 {
        s
    } else {
        run_screen(next_screen(s, events[0]), events.drop_first())
    }
}

/// How many events of the sequence move the machine out of Splash.
pub open spec fn splash_exits(s: ScreenState, events: Seq<ScreenEvent>) -> nat
    decreases events.len(),
{
    if events.len() == 0 {
        0
    } else {
        (if s == ScreenState::Splash && next_screen(s, events[0]) != ScreenState::Splash {
            1nat
        } else {
            0nat
        }) + splash_exits(next_screen(s, events[0]), events.drop_first())
    }
}

/// Law: no event ever enters the splash screen; once the machine has left
/// it, it never shows again.
pub proof fn lemma_splash_never_reentered(s: ScreenState, events: Seq<ScreenEvent>)
    requires
        s != ScreenState::Splash,
    ensures
        run_screen(s, events) != ScreenState::Splash,
    decreases events.len(),
{
    if events.len() > 0 {
        lemma_splash_never_reentered(next_screen(s, events[0]), events.drop_first());
    }
}

/// A machine that starts anywhere but Splash never records a splash exit.
pub proof fn lemma_no_exits_outside_splash(s: ScreenState, events: Seq<ScreenEvent>)
    requires
        s != ScreenState::Splash,
    ensures
        splash_exits(s, events) == 0,
    decreases events.len(),
{
    if events.len() > 0 {
        lemma_no_exits_outside_splash(next_screen(s, events[0]), events.drop_first());
    }
}

/// Law: over any sequence of events, the machine leaves the splash screen
/// at most once — the Splash to Details transition cannot repeat.
pub proof fn lemma_splash_exit_at_most_once(s: ScreenState, events: Seq<ScreenEvent>)
    ensures
        splash_exits(s, events) <= 1,
    decreases events.len(),
{
    if events.len() > 0 {
        let s2 = next_screen(s, events[0]);
        if s == ScreenState::Splash && s2 != ScreenState::Splash {
            lemma_no_exits_outside_splash(s2, events.drop_first());
        } else {
            lemma_splash_exit_at_most_once(s2, events.drop_first());
        }
    }
}

/// Law: once out of the splash screen, a navigation always lands on its
/// target, and of several navigations in a row the last one wins.
pub proof fn lemma_last_navigation_wins(s: ScreenState, a: NavTarget, b: NavTarget)
    requires
        s != ScreenState::Splash,
    ensures
        next_screen(
            next_screen(s, ScreenEvent::NavigateTo(a)),
            ScreenEvent::NavigateTo(b),
        ) == screen_of(b),
{
}

/// The screen state machine itself: the single "current screen" value the
/// presenter reads, updated only by the two trigger kinds.
pub struct ScreenMachine {
    current: ScreenState,
}

impl ScreenMachine {
    /// The active screen.
    pub closed spec fn screen(&self) -> ScreenState {
        self.current
    }

    /// A machine starts on the splash screen.
    pub fn new() -> (r: ScreenMachine)
        ensures
            r.screen() == ScreenState::Splash,
    {
        ScreenMachine { current: ScreenState::Splash }
    }

    /// Apply the splash-timer trigger: Splash moves to Details; any other
    /// state ignores it.
    pub fn splash_elapsed(&mut self)
        ensures
            final(self).screen() == next_screen(old(self).screen(), ScreenEvent::SplashElapsed),
    {
        if self.current == ScreenState::Splash {
            self.current = ScreenState::Details;
        }
    }

    /// Apply a navigation trigger: ignored on Splash, otherwise the machine
    /// moves straight to the target.
    pub fn navigate_to(&mut self, target: NavTarget)
        ensures
            final(self).screen() == next_screen(
                old(self).screen(),
                ScreenEvent::NavigateTo(target),
            ),
    {
        if !(self.current == ScreenState::Splash) {
            self.current = match target {
                NavTarget::Details => ScreenState::Details,
                NavTarget::Graphs => ScreenState::Graphs,
                NavTarget::Settings => ScreenState::Settings,
            };
        }
    }

    /// The active screen, for the presenter.
    pub fn current(&self) -> (r: ScreenState)
        ensures
            r == self.screen(),
    {
        self.current
    }
}

} // verus!
