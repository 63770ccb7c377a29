use poodg::clock::Instant;
use poodg::controls::{ActionQueue, ControlEnum};
use poodg::draw::{DrawItem, Sprite, TextAlign};
use poodg::game::{Game, GameState};
use poodg::geometry::{GamePoint, PixelPoint};
use poodg::object::{Creep, GameObject};
use poodg::pudge::PudgeState;

const TICK: u64 = 16_000;

#[test]
fn first_call_only_starts_the_clock() {
    let mut g = Game::default();
    g.process(Instant::from_ticks(500));
    assert_eq!(g.time, Some(Instant::from_ticks(500)));
    assert_eq!(g.state, GameState::Init(false));
    g.process(Instant::from_ticks(500 + TICK - 1));
    assert_eq!(g.time, Some(Instant::from_ticks(500)));
    assert_eq!(g.state, GameState::Init(false));
    g.process(Instant::from_ticks(500 + TICK));
    assert_eq!(g.time, Some(Instant::from_ticks(500 + TICK)));
    assert_eq!(g.state, GameState::Init(true));
    let items = g.object_handler.iter();
    assert_eq!(items.len(), 1);
    assert_eq!(items[0].id, 0);
    assert_eq!(items[0].location, GamePoint::new(0, 24));
}

#[test]
fn creature_crossing_field_costs_health() {
    let mut g = Game::default();
    g.state = GameState::Hookin(0, 3);
    g.object_handler.insert(GameObject::make_creep(1, GamePoint::new(0, 28), Creep::Radiant, 100));
    let mut t: u64 = 0;
    g.process(Instant::from_ticks(t));
    for _ in 0..128 {
        t += TICK;
        g.process(Instant::from_ticks(t));
    }
    assert_eq!(g.object_handler.iter()[0].location.x, 12800);
    assert_eq!(g.object_handler.iter()[0].reward, 1);
    assert_eq!(g.state, GameState::Hookin(0, 3));
    t += TICK;
    g.process(Instant::from_ticks(t));
    assert!(g.object_handler.iter().is_empty());
    assert_eq!(g.state, GameState::Hookin(0, 2));
}

#[test]
fn last_health_ends_round_once() {
    let mut g = Game::default();
    g.state = GameState::Hookin(12, 1);
    g.object_handler.insert(GameObject::make_creep(1, GamePoint { x: 12750, y: 2800 }, Creep::Radiant, 100));
    g.object_handler.insert(GameObject::make_creep(2, GamePoint { x: 50, y: 1000 }, Creep::Radiant, -100));
    g.process(Instant::from_ticks(0));
    g.process(Instant::from_ticks(TICK));
    assert!(g.object_handler.iter().is_empty());
    assert_eq!(g.state, GameState::GameOver(false, 12));
}

#[test]
fn catch_score_near_top() {
    let creep = GameObject::make_creep(1, GamePoint::new(0, 20), Creep::Radiant, 100);
    assert_eq!(creep.calculate_score(), 145);
    let dire = GameObject::make_creep(2, GamePoint::new(0, 20), Creep::Dire, 100);
    assert_eq!(dire.calculate_score(), 0);
    let low = GameObject::make_creep(3, GamePoint::new(0, 90), Creep::Radiant, -100);
    assert_eq!(low.calculate_score(), 100);
}

#[test]
fn hooking_the_selector_starts_a_round() {
    let mut g = Game::default();
    g.init();
    let mut t: u64 = 0;
    g.process(Instant::from_ticks(t));
    t += TICK;
    g.process(Instant::from_ticks(t));
    assert_eq!(g.state, GameState::Init(true));
    for _ in 0..30 {
        g.control(ControlEnum::Left);
    }
    assert_eq!(g.pudge.location.x, 0);
    g.control(ControlEnum::Hook);
    let mut ticks = 0;
    while g.state == GameState::Init(true) {
        t += TICK;
        g.process(Instant::from_ticks(t));
        ticks += 1;
        assert!(ticks < 100);
    }
    assert_eq!(g.state, GameState::Hookin(0, 3));
    assert_eq!(g.pudge.state, PudgeState::Walking);
    assert!(g.object_handler.iter().is_empty());
}

#[test]
fn restart_after_game_over_advances_seed() {
    let mut g = Game::default();
    g.set_seed(5);
    g.init();
    g.state = GameState::GameOver(false, 30);
    g.pudge.location.x = 0;
    let mut t: u64 = 0;
    g.process(Instant::from_ticks(t));
    g.control(ControlEnum::Hook);
    let mut ticks = 0;
    while g.state != GameState::Hookin(0, 3) {
        t += TICK;
        g.process(Instant::from_ticks(t));
        ticks += 1;
        assert!(ticks < 100);
    }
    assert_eq!(g.seed, 5 + 73_432);
    assert_eq!(g.pudge.location.x, 6400);
    assert_eq!(g.spawner.as_ref().map(|s| s.last_id), Some(0));
}

#[test]
fn missing_costs_ten_points() {
    let mut g = Game::default();
    g.state = GameState::Hookin(25, 3);
    g.control(ControlEnum::Hook);
    let mut t: u64 = 0;
    g.process(Instant::from_ticks(t));
    for _ in 0..26 {
        t += TICK;
        g.process(Instant::from_ticks(t));
    }
    assert_eq!(g.state, GameState::Hookin(15, 3));
}

#[test]
fn actions_from_queue_apply_in_order() {
    let mut g = Game::default();
    let mut q = ActionQueue::new();
    q.push(ControlEnum::Left);
    q.push(ControlEnum::Left);
    q.push(ControlEnum::Hook);
    q.push(ControlEnum::Right);
    g.apply_actions(&mut q);
    assert_eq!(g.pudge.location.x, 6400 - 550);
    assert!(matches!(g.pudge.state, PudgeState::Hooking(_, _)));
    assert!(q.drain().is_empty());
}

fn text_of(item: &DrawItem) -> (String, PixelPoint, TextAlign) {
    match item {
        DrawItem::Text(s, p, a) => (s.clone(), *p, *a),
        _ => panic!("not a text"),
    }
}

#[test]
fn round_frame_shows_score_and_hearts() {
    let mut g = Game::default();
    g.state = GameState::Hookin(145, 3);
    g.object_handler.insert(GameObject::make_creep(4, GamePoint { x: 1299, y: 1000 }, Creep::Radiant, 0));
    let items = g.draw();
    assert_eq!(items.len(), 4);
    assert_eq!(text_of(&items[0]), ("145".to_string(), PixelPoint { x: 2, y: 4 }, TextAlign::TopLeft));
    assert_eq!(text_of(&items[1]), ("<3 <3 <3 ".to_string(), PixelPoint { x: 124, y: 6 }, TextAlign::BaselineRight));
    assert!(matches!(items[2], DrawItem::Image(Sprite::Creep(Creep::Radiant), PixelPoint { x: 12, y: 10 })));
    assert!(matches!(items[3], DrawItem::Image(Sprite::Pudge, PixelPoint { x: 64, y: 51 })));
}

#[test]
fn game_over_and_title_frames() {
    let mut g = Game::default();
    let title = g.draw();
    assert_eq!(title.len(), 2);
    assert!(matches!(title[0], DrawItem::Splash(PixelPoint { x: 0, y: 0 })));
    g.state = GameState::GameOver(true, -7);
    g.control(ControlEnum::Hook);
    let items = g.draw();
    assert_eq!(items.len(), 4);
    assert_eq!(text_of(&items[0]).0, "-7");
    assert_eq!(text_of(&items[1]), ("GAME OVER, TRY AGAIN?".to_string(), PixelPoint { x: 36, y: 32 }, TextAlign::TopLeft));
    assert!(matches!(items[3], DrawItem::Image(Sprite::Hook, PixelPoint { x: 64, y: 51 })));
}
