use snake::clock::{GameClock, Level};
use snake::input::{resolve_key, Intent, KeySymbol};

#[test]
fn level_parse_accepts_one_through_six_only() {
    assert_eq!(Level::from_digit(0), None);
    assert_eq!(Level::from_digit(1), Some(Level::One));
    assert_eq!(Level::from_digit(3), Some(Level::Three));
    assert_eq!(Level::from_digit(6), Some(Level::Six));
    assert_eq!(Level::from_digit(7), None);
    assert_eq!(Level::from_digit(9), None);
}

#[test]
fn level_velocities_follow_the_table() {
    assert_eq!(Level::One.velocity(), 600);
    assert_eq!(Level::Two.velocity(), 400);
    assert_eq!(Level::Three.velocity(), 200);
    assert_eq!(Level::Four.velocity(), 150);
    assert_eq!(Level::Five.velocity(), 100);
    assert_eq!(Level::Six.velocity(), 60);
    assert_eq!(Level::Five.number(), 5);
}

#[test]
fn elapsed_subtracts_start_and_pauses() {
    let mut c = GameClock::new(1000);
    assert_eq!(c.elapsed(1000), 0);
    assert_eq!(c.elapsed(1500), 500);
    c.pause_begin(1500);
    c.pause_end(2300);
    // The pause's 800 units do not count as playing time.
    assert_eq!(c.elapsed(2300), 500);
    assert_eq!(c.elapsed(3000), 1200);
    c.pause_begin(3000);
    c.pause_end(3001);
    assert_eq!(c.elapsed(3001), 1200);
}

#[test]
fn keys_resolve_to_their_intents() {
    assert_eq!(resolve_key(KeySymbol::Up), Intent::TurnUp);
    assert_eq!(resolve_key(KeySymbol::Down), Intent::TurnDown);
    assert_eq!(resolve_key(KeySymbol::Left), Intent::TurnLeft);
    assert_eq!(resolve_key(KeySymbol::Right), Intent::TurnRight);
    assert_eq!(resolve_key(KeySymbol::Enter), Intent::TogglePause);
    assert_eq!(resolve_key(KeySymbol::Escape), Intent::RestartLevelSelect);
    assert_eq!(resolve_key(KeySymbol::Digit(5)), Intent::Ignore);
}
