use poodg::clock::Instant;
use poodg::game::GameState;

#[test]
fn init_next_starts_round() {
    let mut s = GameState::Init(false);
    s.next();
    assert_eq!(s, GameState::Hookin(0, 3));
    let mut t = GameState::Init(true);
    t.next();
    assert_eq!(t, GameState::Hookin(0, 3));
}

#[test]
fn three_hits_end_round() {
    let mut s = GameState::Hookin(42, 3);
    s.damage();
    assert_eq!(s, GameState::Hookin(42, 2));
    s.damage();
    assert_eq!(s, GameState::Hookin(42, 1));
    s.damage();
    assert_eq!(s, GameState::GameOver(false, 42));
}

#[test]
fn game_over_next_restarts() {
    let mut s = GameState::GameOver(true, 17);
    s.next();
    assert_eq!(s, GameState::Hookin(0, 3));
}

#[test]
fn large_loss_leaves_zero() {
    let mut s = GameState::Hookin(5, 2);
    s.add_score(-10);
    assert_eq!(s, GameState::Hookin(0, 2));
    s.add_score(i16::MIN);
    assert_eq!(s, GameState::Hookin(0, 2));
    s.add_score(145);
    assert_eq!(s, GameState::Hookin(145, 2));
    s.add_score(-45);
    assert_eq!(s, GameState::Hookin(100, 2));
}

#[test]
fn score_stops_at_largest() {
    let mut s = GameState::Hookin(i32::MAX - 1, 1);
    s.add_score(10);
    assert_eq!(s, GameState::Hookin(i32::MAX, 1));
}

#[test]
fn set_started_marks_selector() {
    let mut s = GameState::Init(false);
    s.set_started();
    assert_eq!(s, GameState::Init(true));
    let mut g = GameState::GameOver(false, 9);
    g.set_started();
    assert_eq!(g, GameState::GameOver(true, 9));
    let mut h = GameState::Hookin(1, 1);
    h.set_started();
    assert_eq!(h, GameState::Hookin(1, 1));
}

#[test]
fn state_names() {
    assert_eq!(GameState::Init(false).to_str(), "Game start");
    assert_eq!(GameState::Hookin(0, 3).to_str(), "Game in progress");
    assert_eq!(GameState::GameOver(true, 0).to_str(), "Game Over");
}

#[test]
fn durations_on_the_timer() {
    let a = Instant::from_ticks(3);
    let b = Instant::from_ticks(5);
    assert_eq!(b.checked_duration_since(a), Some(2));
    assert_eq!(a.checked_duration_since(b), None);
    assert_eq!(a.checked_duration_since(a), Some(0));
    let wrapped = Instant::from_ticks(1);
    let before_wrap = Instant::from_ticks(u64::MAX);
    assert_eq!(wrapped.checked_duration_since(before_wrap), Some(2));
}
