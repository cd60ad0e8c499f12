use hwdash::screen::{NavTarget, ScreenMachine, ScreenState};

#[test]
fn starts_on_splash() {
    let m = ScreenMachine::new();
    assert_eq!(m.current(), ScreenState::Splash);
}

#[test]
fn navigation_is_ignored_on_splash() {
    let mut m = ScreenMachine::new();
    m.navigate_to(NavTarget::Graphs);
    assert_eq!(m.current(), ScreenState::Splash);
    m.navigate_to(NavTarget::Settings);
    assert_eq!(m.current(), ScreenState::Splash);
}

#[test]
fn splash_elapsed_moves_to_details() {
    let mut m = ScreenMachine::new();
    m.splash_elapsed();
    assert_eq!(m.current(), ScreenState::Details);
}

#[test]
fn last_navigation_wins_after_splash() {
    let mut m = ScreenMachine::new();
    m.splash_elapsed();
    m.navigate_to(NavTarget::Settings);
    m.navigate_to(NavTarget::Details);
    assert_eq!(m.current(), ScreenState::Details);
    // repeating the same target is a legal no-op
    m.navigate_to(NavTarget::Details);
    assert_eq!(m.current(), ScreenState::Details);
}

#[test]
fn splash_elapsed_is_ignored_outside_splash() {
    let mut m = ScreenMachine::new();
    m.splash_elapsed();
    m.navigate_to(NavTarget::Graphs);
    m.splash_elapsed();
    assert_eq!(m.current(), ScreenState::Graphs);
}
