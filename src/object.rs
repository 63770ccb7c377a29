//! Entities of the playfield and the registry that owns them.

use vstd::prelude::*;
use crate::config::{CREEP_HEIGHT, CREEP_WIDTH, DISPLAY_HEIGHT, SCREEN_WIDTH, SUBPIXELS};
use crate::draw::{DrawItem, Sprite, is_image};
use crate::geometry::{
    CollisionRectangle, GamePoint, Vector2, rects_intersect, sat_i64, add_saturating,
};

verus! {

pub type Id = u16;

/// A speed in hundredths of a pixel per tick; its sign is the direction.
pub type Speed = i64;

#[derive(PartialEq, Eq, Structural, Debug, Clone, Copy)]
pub enum RuneEnum {
    WalkSpeed(i32),
    HookSpeed(i32),
    HookSize(i32),
}

/// The faction of a creature.
#[derive(PartialEq, Eq, Structural, Debug, Clone, Copy)]
pub enum Creep {
    Radiant,
    Dire,
}

/// The category of an entity: what the hook can catch.
#[derive(PartialEq, Eq, Structural, Debug, Clone, Copy)]
pub enum Hookable {
    Creep(Creep),
    Blockade,
    Rune(RuneEnum),
}

/// Reward that a new creature carries.
pub const CREEP_REWARD: u16 = 100;

/// An entity on the playfield.
#[derive(PartialEq, Eq, Structural, Debug, Clone, Copy)]
pub struct GameObject {
    pub id: Id,
    pub location: GamePoint,
    pub game_type: Hookable,
    pub sprite_type: Sprite,
    /// Extent in whole pixels.
    pub width: u8,
    pub height: u8,
    pub reward: u16,
    pub speed: Speed,
}

pub enum GameObjectSignal {
    OutOfBounds(Id),
}

/// The entity after one tick: moved by its speed, its reward one less down
/// to a floor of 1.
pub open spec fn ticked(o: GameObject) -> GameObject {
    GameObject {
        location: GamePoint { x: sat_i64(o.location.x + o.speed) as i64, ..o.location },
        reward: if o.reward > 1 { (o.reward - 1) as u16 } else { o.reward },
        ..o
    }
}

/// Whether the entity lies outside the horizontal span of the field.
pub open spec fn off_field(o: GameObject) -> bool {
    o.location.x < 0 || o.location.x > SCREEN_WIDTH * SUBPIXELS
}

/// The entity's bounding rectangle.
pub open spec fn bounds(o: GameObject) -> CollisionRectangle {
    CollisionRectangle {
        position: Vector2 { x: o.location.x, y: o.location.y },
        size: Vector2 { x: (o.width * SUBPIXELS) as i64, y: (o.height * SUBPIXELS) as i64 },
    }
}

/// Points for catching the entity: for a Radiant creature its reward plus
/// its speed and its height above the bottom of the field, in whole pixels
/// rounded down and not below zero; nothing for any other entity.
pub open spec fn score_of(o: GameObject) -> int {
    if o.game_type == Hookable::Creep(Creep::Radiant) {
        let bonus = o.speed + DISPLAY_HEIGHT * SUBPIXELS - o.location.y;
        let total = o.reward + if bonus > 0 { bonus / SUBPIXELS as int } else { 0 };
        if total > u32::MAX { u32::MAX as int } else { total }
    } else {
        0
    }
}

impl GameObject {
    /// A creature of faction `alliegiance` with a fresh reward.
    pub open spec fn spec_make_creep(id: Id, location: GamePoint, alliegiance: Creep, speed: Speed) -> GameObject {
        GameObject {
            id,
            location,
            game_type: Hookable::Creep(alliegiance),
            reward: CREEP_REWARD,
            speed,
            sprite_type: Sprite::Creep(alliegiance),
            width: CREEP_WIDTH,
            height: CREEP_HEIGHT,
        }
    }

    pub fn make_creep(id: Id, location: GamePoint, alliegiance: Creep, speed: Speed) -> (r: GameObject)
        ensures
            r == GameObject::spec_make_creep(id, location, alliegiance, speed),
    {
        GameObject {
            id,
            location,
            game_type: Hookable::Creep(alliegiance),
            reward: CREEP_REWARD,
            speed,
            sprite_type: Sprite::Creep(alliegiance),
            width: CREEP_WIDTH,
            height: CREEP_HEIGHT,
        }
    }

    pub fn calculate_score(&self) -> (r: u32)
        ensures
            r == score_of(*self),
    {
        if self.game_type != Hookable::Creep(Creep::Radiant) {
            return 0;
        }
        let bonus: i128 = self.speed as i128 + DISPLAY_HEIGHT as i128 * SUBPIXELS as i128
            - self.location.y as i128;
        let whole: i128 = if bonus > 0 { bonus / SUBPIXELS as i128 } else { 0 };
        let total: i128 = self.reward as i128 + whole;
        if total > u32::MAX as i128 {
            u32::MAX
        } else {
            total as u32
        }
    }

    /// Advances the entity by one tick and signals when it has left the
    /// field.
    pub fn tick(&mut self) -> (r: Option<GameObjectSignal>)
        ensures
            *final(self) == ticked(*old(self)),
            r matches Some(GameObjectSignal::OutOfBounds(id)) ==> id == old(self).id,
            r is Some <==> off_field(ticked(*old(self))),
    {
        self.location.x = add_saturating(self.location.x, self.speed);
        if self.reward > 1 {
            self.reward -= 1;
        }
        if self.location.x < 0 || self.location.x > SCREEN_WIDTH as i64 * SUBPIXELS {
            return Some(GameObjectSignal::OutOfBounds(self.id));
        }
        None
    }

    /// The entity's sprite at its pixel.
    pub fn draw(&self) -> (r: DrawItem)
        ensures
            is_image(r, self.sprite_type, self.location.spec_to_pixel()),
    {
        DrawItem::Image(self.sprite_type, self.location.to_pixel())
    }

    /// Whether `point` lies in the entity's rectangle, taken upward from its
    /// location.
    pub fn contains(&self, point: &GamePoint) -> (r: bool)
        ensures
            r == point.spec_in_rect(self.location, self.width, self.height),
    {
        point.in_rect(&self.location, &self.width, &self.height)
    }

    pub fn intersects(&self, other_rect: &CollisionRectangle) -> (r: bool)
        ensures
            r == rects_intersect(bounds(*self), *other_rect),
    {
        let collision_rect = CollisionRectangle::new(
            self.location.to_vector(),
            Vector2::from_pixels(self.width as i32, self.height as i32),
        );
        collision_rect.intersects(other_rect)
    }
}

} // verus!

verus! {

/// Identifiers strictly increase along the sequence, so none occurs twice.
pub open spec fn ids_increasing(s: Seq<GameObject>) -> bool {
    forall|i: int, j: int| 0 <= i < j < s.len() ==> s[i].id < s[j].id
}

/// The index of the entity with identifier `id`, if there is one.
pub open spec fn index_of(s: Seq<GameObject>, id: Id) -> Option<int> {
    if exists|i: int| 0 <= i < s.len() && s[i].id == id {
        Some(choose|i: int| 0 <= i < s.len() && s[i].id == id)
    } else {
        None
    }
}

/// `i` is the first index whose entity intersects `rect`.
pub open spec fn is_first_hit(s: Seq<GameObject>, rect: CollisionRectangle, i: int) -> bool {
    &&& 0 <= i < s.len()
    &&& rects_intersect(bounds(s[i]), rect)
    &&& forall|j: int| 0 <= j < i ==> !rects_intersect(bounds(s[j]), rect)
}

/// The index of the first entity that intersects `rect`, if any does.
pub open spec fn first_hit(s: Seq<GameObject>, rect: CollisionRectangle) -> Option<int> {
    if exists|i: int| is_first_hit(s, rect, i) {
        Some(choose|i: int| is_first_hit(s, rect, i))
    } else {
        None
    }
}

/// The identifiers, in order, of the entities of `s` that are off the field
/// once ticked.
pub open spec fn leaving_ids(s: Seq<GameObject>) -> Seq<Id>
    decreases s.len(),
{
    if s.len() == 0 {
        Seq::empty()
    } else {
        let rest = leaving_ids(s.drop_last());
        if off_field(ticked(s.last())) {
            rest.push(s.last().id)
        } else {
            rest
        }
    }
}

/// `k` is where an entity with identifier `id`, absent from `s`, goes: after
/// every smaller identifier and before every larger one.
pub open spec fn is_slot_for(s: Seq<GameObject>, id: Id, k: int) -> bool {
    &&& 0 <= k <= s.len()
    &&& forall|j: int| 0 <= j < k ==> s[j].id < id
    &&& forall|j: int| k <= j < s.len() ==> s[j].id > id
}

/// The ordered sequence `s` with `obj` stored under its identifier: in
/// place of the entity with that identifier, or else at its slot.
pub open spec fn inserted(s: Seq<GameObject>, obj: GameObject) -> Seq<GameObject> {
    match index_of(s, obj.id) {
        Some(i) => s.update(i, obj),
        None => s.insert(choose|k: int| is_slot_for(s, obj.id, k), obj),
    }
}

proof fn lemma_slot_unique(s: Seq<GameObject>, id: Id, k: int)
    requires
        is_slot_for(s, id, k),
    ensures
        (choose|m: int| is_slot_for(s, id, m)) == k,
{
    let m = choose|m: int| is_slot_for(s, id, m);
    assert(is_slot_for(s, id, m));
    if m < k {
        assert(s[m].id > id && s[m].id < id);
    } else if k < m {
        assert(s[k].id > id && s[k].id < id);
    }
}

pub proof fn lemma_index_of_unique(s: Seq<GameObject>, i: int)
    requires
        ids_increasing(s),
        0 <= i < s.len(),
    ensures
        index_of(s, s[i].id) == Some(i),
{
    let j = choose|j: int| 0 <= j < s.len() && s[j].id == s[i].id;
    assert(0 <= j < s.len() && s[j].id == s[i].id);
}

pub proof fn lemma_first_hit_unique(s: Seq<GameObject>, rect: CollisionRectangle, i: int)
    requires
        is_first_hit(s, rect, i),
    ensures
        first_hit(s, rect) == Some(i),
{
    let j = choose|j: int| is_first_hit(s, rect, j);
    assert(is_first_hit(s, rect, j));
    if j < i {
        assert(!rects_intersect(bounds(s[j]), rect));
    } else if i < j {
        assert(!rects_intersect(bounds(s[i]), rect));
    }
}

/// The registry of live entities, kept in increasing order of identifier.
pub struct ObjectHandler {
    objects: Vec<GameObject>,
}

impl View for ObjectHandler {
    type V = Seq<GameObject>;

    closed spec fn view(&self) -> Seq<GameObject> {
        self.objects@
    }
}

impl ObjectHandler {
    pub open spec fn wf(&self) -> bool {
        ids_increasing(self@)
    }

    pub fn new() -> (r: ObjectHandler)
        ensures
            r@ == Seq::<GameObject>::empty(),
            r.wf(),
    {
        ObjectHandler { objects: Vec::new() }
    }

    /// Stores `obj` under its identifier and hands back the entity that it
    /// replaces, if any.
    pub fn insert(&mut self, obj: GameObject) -> (r: Option<GameObject>)
        requires
            old(self).wf(),
        ensures
            final(self).wf(),
            final(self)@ == inserted(old(self)@, obj),
            r == match index_of(old(self)@, obj.id) {
                Some(i) => Some(old(self)@[i]),
                None => None,
            },
    {
        let n = self.objects.len();
        let mut i: usize = 0;
        while i < n && self.objects[i].id < obj.id
            invariant
                n == self.objects.len(),
                0 <= i <= n,
                ids_increasing(self.objects@),
                forall|j: int| 0 <= j < i ==> self.objects@[j].id < obj.id,
            decreases n - i,
        {
            i += 1;
        }
        if i < n && self.objects[i].id == obj.id {
            let prev = self.objects[i];
            proof {
                lemma_index_of_unique(self.objects@, i as int);
            }
            self.objects.set(i, obj);
            return Some(prev);
        }
        proof {
            if exists|j: int| 0 <= j < n && self.objects@[j].id == obj.id {
                let j = choose|j: int| 0 <= j < n && self.objects@[j].id == obj.id;
                if j < i {
                } else if i < n {
                    assert(self.objects@[i as int].id <= self.objects@[j].id);
                }
            }
            assert forall|j: int| i <= j < n implies self.objects@[j].id > obj.id by {
                assert(self.objects@[i as int].id <= self.objects@[j].id);
            }
            assert(is_slot_for(self.objects@, obj.id, i as int));
            lemma_slot_unique(self.objects@, obj.id, i as int);
        }
        self.objects.insert(i, obj);
        assert(self.objects@ == old(self)@.insert(i as int, obj));
        assert forall|a: int, b: int| 0 <= a < b < self.objects@.len() implies
            self.objects@[a].id < self.objects@[b].id by {
            let s0 = old(self)@;
            if b < i {
                assert(self.objects@[a] == s0[a] && self.objects@[b] == s0[b]);
            } else if b == i {
                assert(self.objects@[a] == s0[a]);
            } else if a < i {
                assert(self.objects@[a] == s0[a] && self.objects@[b] == s0[b - 1]);
            } else if a == i {
                assert(self.objects@[b] == s0[b - 1]);
            } else {
                assert(self.objects@[a] == s0[a - 1] && self.objects@[b] == s0[b - 1]);
            }
        }
        None
    }

    /// Takes the entity with identifier `id` out of the registry.
    pub fn remove(&mut self, id: Id) -> (r: Option<GameObject>)
        requires
            old(self).wf(),
        ensures
            final(self).wf(),
            match index_of(old(self)@, id) {
                Some(i) => final(self)@ == old(self)@.remove(i) && r == Some(old(self)@[i]),
                None => final(self)@ == old(self)@ && r is None,
            },
    {
        let n = self.objects.len();
        let mut i: usize = 0;
        while i < n
            invariant
                n == self.objects.len(),
                0 <= i <= n,
                self.objects@ == old(self)@,
                ids_increasing(old(self)@),
                forall|j: int| 0 <= j < i ==> self.objects@[j].id != id,
            decreases n - i,
        {
            if self.objects[i].id == id {
                proof {
                    lemma_index_of_unique(self.objects@, i as int);
                }
                let r = self.objects.remove(i);
                let ghost s0 = old(self)@;
                assert(self.objects@ == s0.remove(i as int));
                assert forall|a: int, b: int| 0 <= a < b < self.objects@.len() implies
                    self.objects@[a].id < self.objects@[b].id by {
                    let a0 = if a < i { a } else { a + 1 };
                    let b0 = if b < i { b } else { b + 1 };
                    assert(self.objects@[a] == s0[a0]);
                    assert(self.objects@[b] == s0[b0]);
                }
                return Some(r);
            }
            i += 1;
        }
        None
    }

    /// The entities in increasing order of identifier.
    pub fn iter(&self) -> (r: &[GameObject])
        ensures
            r@ == self@,
    {
        self.objects.as_slice()
    }

    /// Advances every entity by one tick, in order, and returns the
    /// identifiers of those that left the field, in order.
    pub fn tick_all(&mut self) -> (r: Vec<Id>)
        requires
            old(self).wf(),
        ensures
            final(self).wf(),
            final(self)@ == old(self)@.map_values(|o: GameObject| ticked(o)),
            r@ == leaving_ids(old(self)@),
    {
        let n = self.objects.len();
        let mut out: Vec<Id> = Vec::new();
        let mut i: usize = 0;
        while i < n
            invariant
                n == self.objects.len(),
                n == old(self)@.len(),
                0 <= i <= n,
                forall|j: int| 0 <= j < i ==> self.objects@[j] == ticked(old(self)@[j]),
                forall|j: int| i <= j < n ==> self.objects@[j] == old(self)@[j],
                out@ == leaving_ids(old(self)@.take(i as int)),
            decreases n - i,
        {
            let mut o = self.objects[i];
            let sig = o.tick();
            self.objects.set(i, o);
            assert(old(self)@.take(i as int + 1).drop_last() == old(self)@.take(i as int));
            if let Some(GameObjectSignal::OutOfBounds(id)) = sig {
                out.push(id);
            }
            i += 1;
        }
        assert(old(self)@.take(n as int) == old(self)@);
        assert(self.objects@ == old(self)@.map_values(|o: GameObject| ticked(o)));
        out
    }

    /// The first entity, in order, whose rectangle intersects `rect`.
    pub fn get_collision(&self, rect: &CollisionRectangle) -> (r: Option<&GameObject>)
        ensures
            match first_hit(self@, *rect) {
                Some(i) => r == Some(&self@[i]),
                None => r is None,
            },
    {
        let n = self.objects.len();
        let mut i: usize = 0;
        while i < n
            invariant
                n == self.objects.len(),
                0 <= i <= n,
                forall|j: int| 0 <= j < i ==> !rects_intersect(bounds(self.objects@[j]), *rect),
            decreases n - i,
        {
            if self.objects[i].intersects(rect) {
                proof {
                    lemma_first_hit_unique(self@, *rect, i as int);
                }
                return Some(&self.objects[i]);
            }
            i += 1;
        }
        None
    }
}

} // verus!
