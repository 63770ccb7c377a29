use poodg::controls::{ActionQueue, ControlEnum, RotaryDecoder};

#[test]
fn is_none_and_is_some() {
    assert!(ControlEnum::Idle.is_none());
    assert!(!ControlEnum::Idle.is_some());
    assert!(ControlEnum::Hook.is_some());
    assert!(!ControlEnum::Left.is_none());
}

#[test]
fn queue_keeps_first_eight() {
    let mut q = ActionQueue::new();
    let actions = [
        ControlEnum::Left,
        ControlEnum::Right,
        ControlEnum::Hook,
        ControlEnum::Left,
        ControlEnum::Left,
        ControlEnum::Right,
        ControlEnum::Hook,
        ControlEnum::Right,
        ControlEnum::Hook,
    ];
    for a in actions {
        q.push(a);
    }
    let drained = q.drain();
    assert_eq!(drained.len(), 8);
    assert_eq!(drained, actions[..8].to_vec());
    assert!(q.drain().is_empty());
}

#[test]
fn drain_of_empty_queue_is_empty() {
    let mut q = ActionQueue::new();
    assert!(q.drain().is_empty());
    q.push(ControlEnum::Hook);
    assert_eq!(q.drain(), vec![ControlEnum::Hook]);
    assert!(q.drain().is_empty());
}

#[test]
fn clockwise_detent_is_right() {
    let mut d = RotaryDecoder::new();
    assert_eq!(d.step(false, true), None);
    assert_eq!(d.step(false, false), None);
    assert_eq!(d.step(true, false), None);
    assert_eq!(d.step(true, true), Some(ControlEnum::Right));
    assert_eq!(d, RotaryDecoder::new());
}

#[test]
fn counter_clockwise_detent_is_left() {
    let mut d = RotaryDecoder::new();
    assert_eq!(d.step(true, false), None);
    assert_eq!(d.step(false, false), None);
    assert_eq!(d.step(false, true), None);
    assert_eq!(d.step(true, true), Some(ControlEnum::Left));
}

#[test]
fn turning_back_emits_nothing() {
    let mut d = RotaryDecoder::new();
    assert_eq!(d.step(false, true), None);
    assert_eq!(d.step(true, true), None);
    assert_eq!(d, RotaryDecoder::new());
    assert_eq!(d.step(true, false), None);
    assert_eq!(d.step(false, false), None);
    assert_eq!(d.step(true, false), None);
    assert_eq!(d.step(true, true), None);
}

#[test]
fn wheel_direction() {
    assert_eq!(ControlEnum::from_scroll(3), ControlEnum::Left);
    assert_eq!(ControlEnum::from_scroll(-1), ControlEnum::Right);
    assert_eq!(ControlEnum::from_scroll(0), ControlEnum::Idle);
}
