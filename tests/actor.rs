use poodg::controls::ControlEnum;
use poodg::geometry::GamePoint;
use poodg::object::{Creep, GameObject, Hookable, ObjectHandler};
use poodg::pudge::{HookState, Pudge, PudgeSignal, PudgeState};

fn hook_y(p: &Pudge) -> i64 {
    match p.state {
        PudgeState::Hooking(at, _) => at.y,
        PudgeState::Walking => panic!("the hook is not out"),
    }
}

#[test]
fn hook_cycle_miss_and_return() {
    let mut p = Pudge::default();
    let mut objects = ObjectHandler::new();
    let start_y = p.location.y;
    p.act(Some(ControlEnum::Hook));
    assert_eq!(p.state, PudgeState::Hooking(p.location, HookState::Flying));
    assert_eq!(hook_y(&p), start_y);

    let mut misses = 0;
    let mut last_y = hook_y(&p);
    let mut ticks = 0;
    loop {
        let signal = p.tick(&mut objects);
        ticks += 1;
        let y = hook_y(&p);
        assert!(y < last_y);
        last_y = y;
        match signal {
            Some(PudgeSignal::Missed) => {
                misses += 1;
                assert!(y <= 0);
                assert_eq!(p.state, PudgeState::Hooking(GamePoint { x: 6400, y }, HookState::Reeling(None)));
                break;
            }
            None => assert!(y > 0),
            _ => panic!("unexpected signal"),
        }
    }
    assert_eq!(ticks, 26);
    assert_eq!(last_y, -100);
    assert_eq!(misses, 1);

    let (speed, hook_speed) = (p.speed, p.hook_speed);
    let mut reeled = 0;
    loop {
        let signal = p.tick(&mut objects);
        match signal {
            Some(PudgeSignal::Reeled(None)) => {
                reeled += 1;
                break;
            }
            None => {
                let y = hook_y(&p);
                assert!(y > last_y);
                assert!(y < p.location.y - 1300);
                last_y = y;
            }
            _ => panic!("unexpected signal"),
        }
    }
    assert_eq!(reeled, 1);
    assert_eq!(p.state, PudgeState::Walking);
    assert!(p.speed > speed);
    assert!(p.hook_speed > hook_speed);
    assert_eq!(p.speed, 290);
    assert_eq!(p.hook_speed, 210);
    assert_eq!(p.tick(&mut objects), None);
}

#[test]
fn hook_catches_first_creature_in_its_way() {
    let mut p = Pudge::default();
    let mut objects = ObjectHandler::new();
    let creep = GameObject::make_creep(7, GamePoint::new(64, 10), Creep::Radiant, 0);
    objects.insert(creep);
    p.act(Some(ControlEnum::Hook));
    let mut ticks = 0;
    let caught = loop {
        ticks += 1;
        match p.tick(&mut objects) {
            Some(PudgeSignal::Hooked(obj)) => break obj,
            None => {}
            _ => panic!("unexpected signal"),
        }
        assert!(ticks < 40);
    };
    assert_eq!(ticks, 18);
    assert_eq!(caught, creep);
    assert!(objects.iter().is_empty());
    assert_eq!(
        p.state,
        PudgeState::Hooking(GamePoint { x: 6400, y: 1500 }, HookState::Reeling(Some(Hookable::Creep(Creep::Radiant))))
    );
}

#[test]
fn walking_is_clamped_to_the_field() {
    let mut p = Pudge::default();
    for _ in 0..30 {
        p.act(Some(ControlEnum::Left));
    }
    assert_eq!(p.location.x, 0);
    p.act(Some(ControlEnum::Right));
    assert_eq!(p.location.x, 275);
    for _ in 0..60 {
        p.act(Some(ControlEnum::Right));
    }
    assert_eq!(p.location.x, 11000);
    p.act(Some(ControlEnum::Idle));
    p.act(None);
    assert_eq!(p.location.x, 11000);
}

#[test]
fn walking_is_ignored_while_hooking() {
    let mut p = Pudge::default();
    p.act(Some(ControlEnum::Hook));
    let before = p;
    p.act(Some(ControlEnum::Left));
    p.act(Some(ControlEnum::Hook));
    assert_eq!(p, before);
}

#[test]
fn actor_draws_body_and_hook() {
    let mut p = Pudge::default();
    assert_eq!(p.draw().len(), 1);
    p.act(Some(ControlEnum::Hook));
    assert_eq!(p.draw().len(), 2);
}

#[test]
fn creature_contains_points_above_its_location() {
    let creep = GameObject::make_creep(1, GamePoint::new(10, 30), Creep::Dire, 0);
    assert!(creep.contains(&GamePoint::new(15, 25)));
    assert!(creep.contains(&GamePoint::new(23, 19)));
    assert!(!creep.contains(&GamePoint::new(15, 31)));
    assert!(!creep.contains(&GamePoint::new(24, 25)));
}
