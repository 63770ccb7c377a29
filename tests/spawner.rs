use poodg::clock::Instant;
use poodg::object::{Creep, GameObject, Hookable};
use poodg::spawner::{Spawner, SpawnerBuilder};

fn run(spawner: &mut Spawner, until_ms: u64) -> Vec<GameObject> {
    let mut out = Vec::new();
    let mut t: u64 = 0;
    while t <= until_ms {
        if let Some(o) = spawner.try_spawn(Instant::from_ticks(t * 1000)) {
            out.push(o);
        }
        t += 100;
    }
    out
}

#[test]
fn same_seed_same_spawns() {
    let mut a = Spawner::new(1, 123489, 65);
    let mut b = Spawner::new(1, 123489, 65);
    let sa = run(&mut a, 120_000);
    let sb = run(&mut b, 120_000);
    assert!(sa.len() >= 15);
    assert_eq!(sa, sb);
    let mut c = Spawner::from_config(SpawnerBuilder { creep_per_m: 1, seed: 123489, base_speed: 65 });
    assert_eq!(run(&mut c, 120_000), sa);
}

#[test]
fn spawns_follow_the_rules() {
    let mut s = Spawner::new(1, 7, 65);
    let spawned = run(&mut s, 120_000);
    assert!(!spawned.is_empty());
    for (i, o) in spawned.iter().enumerate() {
        assert_eq!(o.id as usize, i + 1);
        assert_eq!(o.game_type, Hookable::Creep(Creep::Radiant));
        assert_eq!(o.reward, 100);
        let base = 65 + 25 * (i as i64 + 1);
        assert!(o.location.y == 2800 || o.location.y == 1000);
        if o.location.x == 0 {
            assert!(o.speed >= base && o.speed < base + 100);
        } else {
            assert_eq!(o.location.x, 12800);
            assert!(-o.speed >= base && -o.speed < base + 100);
        }
    }
    assert_eq!(s.base_speed, 65 + 25 * spawned.len() as i64);
    assert_eq!(s.last_id as usize, spawned.len());
}

#[test]
fn no_spawn_before_interval_less_jitter() {
    let mut s = Spawner::new(1, 99, 65);
    for t in 0..=4000u64 {
        assert!(s.try_spawn(Instant::from_ticks(t * 1000)).is_none());
    }
    assert!(s.try_spawn(Instant::from_ticks(6001 * 1000)).is_some());
    assert_eq!(s.last_spawn, Instant::from_ticks(6001 * 1000));
}

#[test]
fn is_due_adds_jitter() {
    let s = Spawner::new(1, 1, 65);
    assert!(!s.is_due(Instant::from_ticks(5_000_000), 1000));
    assert!(s.is_due(Instant::from_ticks(5_000_000), 1001));
    assert!(!s.is_due(Instant::from_ticks(6_000_999), 0));
    assert!(s.is_due(Instant::from_ticks(6_001_000), 0));
}

#[test]
fn make_spawn_places_lanes_and_directions() {
    let mut s = Spawner::new(1, 1, 65);
    let right = s.make_spawn(true, true, 40);
    assert_eq!(right.id, 1);
    assert_eq!((right.location.x, right.location.y), (0, 1000));
    assert_eq!(right.speed, 105);
    let left = s.make_spawn(false, false, 99);
    assert_eq!(left.id, 2);
    assert_eq!((left.location.x, left.location.y), (12800, 2800));
    assert_eq!(left.speed, -164);
}
