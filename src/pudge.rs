//! The hook operator: walks along the bottom of the field and throws a hook
//! straight up, which catches the first entity in its way.

use vstd::prelude::*;
use crate::config::{HOOK_WIDTH, PUDGE_HEIGHT, PUDGE_WIDTH, SCREEN_HEIGHT, SCREEN_WIDTH, SUBPIXELS};
use crate::controls::ControlEnum;
use crate::draw::{DrawItem, Sprite, is_image};
use crate::geometry::{CollisionRectangle, GamePoint, Vector2, add_saturating, sat_i64};
use crate::object::{
    GameObject, Hookable, ObjectHandler, Speed, first_hit, lemma_index_of_unique,
};

verus! {

/// Height of the hook's catching box, in hundredths of a pixel.
pub const HOOK_BOX_HEIGHT: i64 = 300;

/// Distance from the hook's point down to its catching box.
pub const HOOK_BOX_OFFSET: i64 = 500;

#[derive(PartialEq, Eq, Structural, Debug, Clone, Copy)]
pub enum HookState {
    Flying,
    /// Coming back, with the category of what it caught, if anything.
    Reeling(Option<Hookable>),
}

#[derive(PartialEq, Eq, Structural, Debug, Clone, Copy)]
pub enum PudgeState {
    Walking,
    /// The hook is out, at the given point.
    Hooking(GamePoint, HookState),
}

#[derive(PartialEq, Eq, Structural, Debug, Clone, Copy)]
pub enum PudgeSignal {
    /// The hook caught this entity, which left the registry.
    Hooked(GameObject),
    /// The hook reached the top of the field without catching anything.
    Missed,
    /// The hook is back, with the category of what it caught, if anything.
    Reeled(Option<Hookable>),
}

#[derive(PartialEq, Eq, Structural, Debug, Clone, Copy)]
pub struct Pudge {
    pub location: GamePoint,
    /// Walking speed, in hundredths of a pixel per step.
    pub speed: Speed,
    /// Distance the hook flies up per tick.
    pub hook_speed: Speed,
    /// Added to the hook speed each time the hook comes back.
    pub hook_boost: Speed,
    /// Added to the walking speed each time the hook comes back.
    pub movement_boost: Speed,
    pub state: PudgeState,
}

/// How far a returning hook moves per tick: 1.2 times the hook speed,
/// rounded down.
pub open spec fn reel_speed(hook_speed: i64) -> int {
    sat_i64(hook_speed + hook_speed / 5)
}

/// The box in which the hook at `at` catches entities: as wide as the hook,
/// a few pixels below its point.
pub open spec fn hook_box(at: GamePoint) -> CollisionRectangle {
    CollisionRectangle {
        position: Vector2 { x: at.x, y: (at.y + HOOK_BOX_OFFSET) as i64 },
        size: Vector2 { x: (HOOK_WIDTH * SUBPIXELS) as i64, y: HOOK_BOX_HEIGHT },
    }
}

/// Rightmost position of the operator's left edge.
pub open spec fn max_x() -> int {
    (SCREEN_WIDTH - PUDGE_WIDTH) * SUBPIXELS
}

impl Pudge {
    /// The operator at the start of a round.
    pub open spec fn spec_default() -> Pudge {
        Pudge {
            location: GamePoint { x: 6400, y: 5100 },
            speed: 275,
            hook_speed: 200,
            hook_boost: 10,
            movement_boost: 15,
            state: PudgeState::Walking,
        }
    }

    pub open spec fn wf(&self) -> bool {
        &&& 0 <= self.location.x <= max_x()
        &&& PUDGE_HEIGHT * SUBPIXELS < self.location.y <= SCREEN_HEIGHT * SUBPIXELS
        &&& self.speed > 0
        &&& self.hook_speed > 0
        &&& self.hook_boost > 0
        &&& self.movement_boost > 0
        &&& match self.state {
            PudgeState::Walking => true,
            PudgeState::Hooking(at, HookState::Flying) => 0 < at.y <= self.location.y,
            PudgeState::Hooking(at, HookState::Reeling(_)) => -self.hook_speed < at.y
                <= self.location.y,
        }
    }

    /// Where the hook counts as back: the top of the operator's body.
    pub open spec fn body_top(&self) -> int {
        self.location.y - PUDGE_HEIGHT * SUBPIXELS
    }

    /// The operator after one step in direction `controls`, or after firing.
    pub open spec fn spec_move(self, controls: ControlEnum) -> Pudge {
        match controls {
            ControlEnum::Idle => self,
            ControlEnum::Left => if self.speed > self.location.x {
                Pudge { location: GamePoint { x: 0, ..self.location }, ..self }
            } else {
                Pudge {
                    location: GamePoint { x: (self.location.x - self.speed) as i64, ..self.location },
                    ..self
                }
            },
            ControlEnum::Right => if self.speed + self.location.x + PUDGE_WIDTH * SUBPIXELS
                > SCREEN_WIDTH * SUBPIXELS {
                Pudge { location: GamePoint { x: max_x() as i64, ..self.location }, ..self }
            } else {
                Pudge {
                    location: GamePoint { x: (self.location.x + self.speed) as i64, ..self.location },
                    ..self
                }
            },
            ControlEnum::Hook => Pudge {
                state: PudgeState::Hooking(self.location, HookState::Flying),
                ..self
            },
        }
    }

    /// The operator after an action: one that only acts while walking.
    pub open spec fn spec_act(self, controls: Option<ControlEnum>) -> Pudge {
        match controls {
            Some(c) => if self.state == PudgeState::Walking {
                self.spec_move(c)
            } else {
                self
            },
            None => self,
        }
    }

    /// One tick of the hook: the operator, the registry and the signal after
    /// it.
    pub open spec fn spec_tick(self, objs: Seq<GameObject>) -> (Pudge, Seq<GameObject>, Option<
        PudgeSignal,
    >) {
        match self.state {
            PudgeState::Walking => (self, objs, None),
            PudgeState::Hooking(at, HookState::Flying) => {
                let to = GamePoint { y: (at.y - self.hook_speed) as i64, ..at };
                if to.y <= 0 {
                    (
                        Pudge {
                            state: PudgeState::Hooking(to, HookState::Reeling(None)),
                            ..self
                        },
                        objs,
                        Some(PudgeSignal::Missed),
                    )
                } else {
                    match first_hit(objs, hook_box(to)) {
                        Some(i) => (
                            Pudge {
                                state: PudgeState::Hooking(
                                    to,
                                    HookState::Reeling(Some(objs[i].game_type)),
                                ),
                                ..self
                            },
                            objs.remove(i),
                            Some(PudgeSignal::Hooked(objs[i])),
                        ),
                        None => (
                            Pudge { state: PudgeState::Hooking(to, HookState::Flying), ..self },
                            objs,
                            None,
                        ),
                    }
                }
            },
            PudgeState::Hooking(at, HookState::Reeling(caught)) => {
                let to = GamePoint {
                    y: sat_i64(at.y + reel_speed(self.hook_speed)) as i64,
                    ..at
                };
                if to.y >= self.body_top() {
                    (
                        Pudge {
                            state: PudgeState::Walking,
                            hook_speed: sat_i64(self.hook_speed + self.hook_boost) as i64,
                            speed: sat_i64(self.speed + self.movement_boost) as i64,
                            ..self
                        },
                        objs,
                        Some(PudgeSignal::Reeled(caught)),
                    )
                } else {
                    (
                        Pudge { state: PudgeState::Hooking(to, HookState::Reeling(caught)), ..self },
                        objs,
                        None,
                    )
                }
            },
        }
    }
}

impl Default for Pudge {
    /// The operator at the start of a round: walking, at the middle of the
    /// bottom of the field.
    fn default() -> (r: Pudge)
        ensures
            r.wf(),
            r == Pudge::spec_default(),
    {
        Pudge {
            location: GamePoint::new(64, 64 - 13),
            speed: 275,
            hook_speed: 200,
            hook_boost: 10,
            movement_boost: 15,
            state: PudgeState::Walking,
        }
    }
}

impl Pudge {
    /// Applies an action; actions other than firing move the operator, and
    /// only while walking.
    pub fn act(&mut self, controls: Option<ControlEnum>)
        requires
            old(self).wf(),
        ensures
            final(self).wf(),
            *final(self) == old(self).spec_act(controls),
    {
        if self.state == PudgeState::Walking {
            if let Some(control) = controls {
                self.move_character(control);
            }
        }
    }

    /// Advances the hook by one tick; a caught entity leaves `object_handler`.
    pub fn tick(&mut self, object_handler: &mut ObjectHandler) -> (r: Option<PudgeSignal>)
        requires
            old(self).wf(),
            old(object_handler).wf(),
        ensures
            final(self).wf(),
            final(object_handler).wf(),
            (*final(self), final(object_handler)@, r) == old(self).spec_tick(old(object_handler)@),
    {
        if let PudgeState::Hooking(hook_location, hook_state) = self.state {
            match hook_state {
                HookState::Flying => {
                    let mut new_location = hook_location;
                    new_location.y = new_location.y - self.hook_speed;
                    if new_location.y <= 0 {
                        self.set_state(
                            PudgeState::Hooking(new_location, HookState::Reeling(None)),
                        );
                        return Some(PudgeSignal::Missed);
                    }
                    let hook_box = CollisionRectangle::new(
                        Vector2::new(new_location.x, new_location.y + HOOK_BOX_OFFSET),
                        Vector2::new(HOOK_WIDTH as i64 * SUBPIXELS, HOOK_BOX_HEIGHT),
                    );
                    let hit = match object_handler.get_collision(&hook_box) {
                        Some(collision) => Some(collision.id),
                        None => None,
                    };
                    if let Some(id) = hit {
                        let ghost objs = object_handler@;
                        let ghost i = first_hit(objs, hook_box).unwrap();
                        proof {
                            lemma_index_of_unique(objs, i);
                        }
                        let removed = object_handler.remove(id);
                        if let Some(obj) = removed {
                            self.set_state(
                                PudgeState::Hooking(
                                    new_location,
                                    HookState::Reeling(Some(obj.game_type)),
                                ),
                            );
                            return Some(PudgeSignal::Hooked(obj));
                        }
                    }
                    self.set_state(PudgeState::Hooking(new_location, HookState::Flying));
                },
                HookState::Reeling(obj) => {
                    let mut new_location = hook_location;
                    let reel = add_saturating(self.hook_speed, self.hook_speed / 5);
                    new_location.y = add_saturating(new_location.y, reel);
                    if new_location.y as i128 >= self.location.y as i128 - PUDGE_HEIGHT as i128
                        * SUBPIXELS as i128 {
                        self.set_state(PudgeState::Walking);
                        self.hook_speed = add_saturating(self.hook_speed, self.hook_boost);
                        self.speed = add_saturating(self.speed, self.movement_boost);
                        return Some(PudgeSignal::Reeled(obj));
                    }
                    self.set_state(PudgeState::Hooking(new_location, HookState::Reeling(obj)));
                },
            }
        }
        None
    }

    fn set_state(&mut self, state: PudgeState)
        ensures
            *final(self) == (Pudge { state, ..*old(self) }),
    {
        self.state = state;
    }

    fn move_character(&mut self, controls: ControlEnum)
        requires
            old(self).wf(),
            old(self).state == PudgeState::Walking,
        ensures
            *final(self) == old(self).spec_move(controls),
    {
        match controls {
            ControlEnum::Idle => {},
            ControlEnum::Left => {
                let distance = self.speed;
                if distance > self.location.x {
                    self.location.x = 0;
                    return;
                }
                self.location.x = self.location.x - distance;
            },
            ControlEnum::Right => {
                let distance = self.speed;
                if distance as i128 + self.location.x as i128 + PUDGE_WIDTH as i128
                    * SUBPIXELS as i128 > SCREEN_WIDTH as i128 * SUBPIXELS as i128 {
                    self.location.x = (SCREEN_WIDTH as i64 - PUDGE_WIDTH as i64) * SUBPIXELS;
                    return;
                }
                self.location.x = self.location.x + distance;
            },
            ControlEnum::Hook => {
                self.state = PudgeState::Hooking(self.location, HookState::Flying);
            },
        }
    }

    /// The operator's body, and the hook while it is out.
    pub fn draw(&self) -> (r: Vec<DrawItem>)
        ensures
            is_image(r@[0], Sprite::Pudge, self.location.spec_to_pixel()),
            match self.state {
                PudgeState::Walking => r@.len() == 1,
                PudgeState::Hooking(at, _) => r@.len() == 2 && is_image(
                    r@[1],
                    Sprite::Hook,
                    at.spec_to_pixel(),
                ),
            },
    {
        let mut items: Vec<DrawItem> = Vec::new();
        items.push(DrawItem::Image(Sprite::Pudge, self.location.to_pixel()));
        if let PudgeState::Hooking(position, _) = self.state {
            items.push(DrawItem::Image(Sprite::Hook, position.to_pixel()));
        }
        items
    }
}

/// Firing while walking puts the hook in flight at the operator's own
/// location.
pub proof fn lemma_fire_starts_flight(p: Pudge)
    requires
        p.wf(),
        p.state == PudgeState::Walking,
    ensures
        p.spec_act(Some(ControlEnum::Hook)).state == PudgeState::Hooking(
            p.location,
            HookState::Flying,
        ),
        p.spec_act(Some(ControlEnum::Hook)).location == p.location,
{
}

/// Each tick moves a flying hook strictly upward and leaves the hook out.
/// While it stays in flight it is below the top edge and nothing is
/// signalled; once it reaches the top edge it turns back empty-handed and
/// the miss is signalled, on that tick only.
pub proof fn lemma_flight_step(p: Pudge, objs: Seq<GameObject>)
    requires
        p.wf(),
        p.state matches PudgeState::Hooking(_, HookState::Flying),
    ensures
        ({
            let (q, _, sig) = p.spec_tick(objs);
            let at = p.state->Hooking_0;
            &&& q.state matches PudgeState::Hooking(to, _) && to.y < at.y
            &&& q.state matches PudgeState::Hooking(to, HookState::Flying) ==> to.y > 0 && sig
                is None
            &&& sig == Some(PudgeSignal::Missed) <==> (q.state matches PudgeState::Hooking(to, _)
                && to.y <= 0)
            &&& sig == Some(PudgeSignal::Missed) ==> q.state->Hooking_1 == HookState::Reeling(None)
        }),
{
}

/// A returning hook never signals a miss. Each tick moves it strictly
/// downward; while it is above the operator's body nothing is signalled, and
/// when it reaches the body the operator walks again, the catch is signalled
/// once, and both speeds have grown (unless at the largest `i64`).
pub proof fn lemma_reel_step(p: Pudge, objs: Seq<GameObject>)
    requires
        p.wf(),
        p.state matches PudgeState::Hooking(_, HookState::Reeling(_)),
        p.hook_speed + p.hook_boost <= i64::MAX,
        p.speed + p.movement_boost <= i64::MAX,
    ensures
        ({
            let (q, objs2, sig) = p.spec_tick(objs);
            let at = p.state->Hooking_0;
            let caught = p.state->Hooking_1->Reeling_0;
            &&& objs2 == objs
            &&& sig != Some(PudgeSignal::Missed)
            &&& match q.state {
                PudgeState::Hooking(to, HookState::Reeling(c)) => {
                    &&& c == caught
                    &&& at.y < to.y < p.body_top()
                    &&& sig is None
                    &&& q.speed == p.speed && q.hook_speed == p.hook_speed
                },
                PudgeState::Walking => {
                    &&& sig == Some(PudgeSignal::Reeled(caught))
                    &&& q.hook_speed > p.hook_speed
                    &&& q.speed > p.speed
                    &&& q.location == p.location
                },
                _ => false,
            }
        }),
{
}

} // verus!
