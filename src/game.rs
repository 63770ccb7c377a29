//! The round controller: the state of a round and the per-tick update that
//! ties the operator, the entities and the spawner together.

use vstd::prelude::*;
use vstd::string::StringExecFns;
use crate::clock::{HALF_RANGE, Instant, lemma_since_in_range};
use crate::controls::{ActionQueue, ControlEnum};
use crate::draw::{DrawItem, Sprite, TextAlign, is_image, is_text};
use crate::geometry::{GamePoint, PixelPoint};
use crate::object::{
    Creep, GameObject, Hookable, Id, ObjectHandler, Speed, index_of, inserted, leaving_ids,
    score_of, ticked,
};
use crate::pudge::{Pudge, PudgeSignal, PudgeState};
use crate::spawner::{Spawner, spawn_outcome};

verus! {

pub type Score = i32;

pub type Hp = u8;

pub type Started = bool;

/// Health at the start of a round.
pub const START_HP: Hp = 3;

/// The state of a round.
#[derive(PartialEq, Eq, Structural, Debug, Clone, Copy)]
pub enum GameState {
    /// Before the first round; `true` once the start selector is placed.
    Init(Started),
    /// A round in progress: score and health.
    Hookin(Score, Hp),
    /// After a round: whether the restart selector is placed, and the final
    /// score.
    GameOver(Started, Score),
}

impl GameState {
    pub open spec fn spec_next(self) -> GameState {
        match self {
            GameState::Init(_) => GameState::Hookin(0, START_HP),
            GameState::Hookin(score, _) => GameState::GameOver(false, score),
            GameState::GameOver(_, _) => GameState::Hookin(0, START_HP),
        }
    }

    pub open spec fn spec_set_started(self) -> GameState {
        match self {
            GameState::Init(false) => GameState::Init(true),
            GameState::GameOver(false, score) => GameState::GameOver(true, score),
            _ => self,
        }
    }

    /// The score raised by `points`; a loss larger than the score leaves 0,
    /// and the score stops at the largest `i32`.
    pub open spec fn spec_add_score(self, points: i16) -> GameState {
        match self {
            GameState::Hookin(score, hp) => if points < 0 && -points > score {
                GameState::Hookin(0, hp)
            } else if score + points > i32::MAX {
                GameState::Hookin(i32::MAX, hp)
            } else {
                GameState::Hookin((score + points) as i32, hp)
            },
            _ => self,
        }
    }

    /// One point of health less; the last one ends the round.
    pub open spec fn spec_damage(self) -> GameState {
        match self {
            GameState::Hookin(score, hp) => if hp <= 1 {
                self.spec_next()
            } else {
                GameState::Hookin(score, (hp - 1) as u8)
            },
            _ => self,
        }
    }

    /// Moves on: a round starts from the title or from a finished round, and
    /// a round in progress ends with its score.
    pub fn next(&mut self)
        ensures
            *final(self) == old(self).spec_next(),
    {
        match *self {
            GameState::Init(_) => *self = GameState::Hookin(0, START_HP),
            GameState::Hookin(score, _) => *self = GameState::GameOver(false, score),
            GameState::GameOver(_, _) => *self = GameState::Hookin(0, START_HP),
        }
    }

    /// Records that the selector is placed.
    pub fn set_started(&mut self)
        ensures
            *final(self) == old(self).spec_set_started(),
    {
        match *self {
            GameState::Init(false) => *self = GameState::Init(true),
            GameState::GameOver(false, score) => *self = GameState::GameOver(true, score),
            _ => {},
        }
    }

    pub fn add_score(&mut self, points: i16)
        requires
            *old(self) is Hookin,
        ensures
            *final(self) == old(self).spec_add_score(points),
    {
        if let GameState::Hookin(score, hp) = *self {
            if points < 0 && -(points as i32) > score {
                *self = GameState::Hookin(0, hp);
                return;
            }
            let total = score as i64 + points as i64;
            if total > i32::MAX as i64 {
                *self = GameState::Hookin(i32::MAX, hp);
            } else {
                *self = GameState::Hookin(total as i32, hp);
            }
        }
    }

    pub fn damage(&mut self)
        requires
            *old(self) is Hookin,
        ensures
            *final(self) == old(self).spec_damage(),
    {
        if let GameState::Hookin(score, hp) = *self {
            if hp <= 1 {
                self.next();
                return;
            }
            *self = GameState::Hookin(score, hp - 1);
        }
    }

    pub fn to_str(&self) -> (r: &'static str)
        ensures
            r@ == match *self {
                GameState::GameOver(_, _) => "Game Over"@,
                GameState::Init(_) => "Game start"@,
                GameState::Hookin(_, _) => "Game in progress"@,
            },
    {
        match self {
            GameState::GameOver(_, _) => "Game Over",
            GameState::Init(_) => "Game start",
            GameState::Hookin(_, _) => "Game in progress",
        }
    }
}

/// From the title, one step starts a round with no score and full health.
pub proof fn lemma_init_next_starts_round(started: Started)
    ensures
        GameState::Init(started).spec_next() == GameState::Hookin(0, START_HP),
{
}

/// A round at full health ends after exactly three hits, keeping its score.
pub proof fn lemma_three_hits_end_round(score: Score)
    ensures
        GameState::Hookin(score, START_HP).spec_damage() is Hookin,
        GameState::Hookin(score, START_HP).spec_damage().spec_damage() is Hookin,
        GameState::Hookin(score, START_HP).spec_damage().spec_damage().spec_damage()
            == GameState::GameOver(false, score),
{
}

/// Adding points never takes a score below zero, and a loss larger than the
/// score leaves exactly zero.
pub proof fn lemma_score_never_negative(score: Score, hp: Hp, points: i16)
    requires
        score >= 0,
    ensures
        GameState::Hookin(score, hp).spec_add_score(points)->Hookin_0 >= 0,
        points < 0 && -points > score ==> GameState::Hookin(score, hp).spec_add_score(points)
            == GameState::Hookin(0, hp),
{
}

/// Least time between two executed ticks, in microseconds.
pub const TICK_RATE: u64 = 16_000;

/// Added to the seed each time a round restarts.
pub const SEED_STEP: u64 = 73_432;

/// Points lost when the hook misses.
pub const MISS_PENALTY: i16 = -10;

/// Most entities removed for leaving the field in one tick.
pub const MAX_REMOVALS: usize = 8;

/// Spawn rate and starting base speed of a round's spawner.
pub const CREEP_PER_M: u8 = 1;
pub const START_BASE_SPEED: Speed = 65;

/// Identifier and place, in pixels, of the selector: the still creature that
/// the player hooks to start a round.
pub const SELECTOR_ID: Id = 0;
pub const SELECTOR_X: i32 = 0;
pub const SELECTOR_Y: i32 = 24;

/// The selector creature.
pub open spec fn selector() -> GameObject {
    GameObject::spec_make_creep(
        SELECTOR_ID,
        GamePoint { x: (SELECTOR_X * 100) as i64, y: (SELECTOR_Y * 100) as i64 },
        Creep::Radiant,
        0,
    )
}

/// The points that a caught entity adds to the score, held in an `i16`.
pub open spec fn points_for(o: GameObject) -> i16 {
    if score_of(o) > i16::MAX {
        i16::MAX
    } else {
        score_of(o) as i16
    }
}

/// The round state after the operator's signal: a caught Radiant creature
/// scores, a miss costs points.
pub open spec fn after_signal(state: GameState, sig: Option<PudgeSignal>) -> GameState {
    match sig {
        Some(PudgeSignal::Hooked(o)) => if o.game_type == Hookable::Creep(Creep::Radiant) {
            state.spec_add_score(points_for(o))
        } else {
            state
        },
        Some(PudgeSignal::Missed) => state.spec_add_score(MISS_PENALTY),
        _ => state,
    }
}

/// The round state and the entities after removing those with identifiers
/// `ids`, in order: each Radiant creature removed costs health while the
/// round lasts.
pub open spec fn after_removals(state: GameState, objs: Seq<GameObject>, ids: Seq<Id>) -> (
    GameState,
    Seq<GameObject>,
)
    decreases ids.len(),
{
    if ids.len() == 0 {
        (state, objs)
    } else {
        let (st, os) = after_removals(state, objs, ids.drop_last());
        match index_of(os, ids.last()) {
            Some(i) => (
                if os[i].game_type == Hookable::Creep(Creep::Radiant) && st is Hookin {
                    st.spec_damage()
                } else {
                    st
                },
                os.remove(i),
            ),
            None => (st, os),
        }
    }
}

/// The identifiers removed in one tick: the first ones that left the field,
/// as many as one tick removes.
pub open spec fn removal_batch(leaving: Seq<Id>) -> Seq<Id> {
    if leaving.len() <= MAX_REMOVALS {
        leaving
    } else {
        leaving.take(MAX_REMOVALS as int)
    }
}

/// The operator after each of `actions`, in order.
pub open spec fn acted_all(p: Pudge, actions: Seq<ControlEnum>) -> Pudge
    decreases actions.len(),
{
    if actions.len() == 0 {
        p
    } else {
        acted_all(p, actions.drop_last()).spec_act(Some(actions.last()))
    }
}

pub open spec fn now_ticks(time: Option<Instant>) -> u64 {
    match time {
        Some(t) => t.ticks,
        None => 0,
    }
}

/// The character of decimal digit `d`.
pub open spec fn digit_char(d: nat) -> char {
    seq!['0', '1', '2', '3', '4', '5', '6', '7', '8', '9'][d as int]
}

/// The decimal digits of `n`, most significant first, without leading
/// zeros.
pub open spec fn digits(n: nat) -> Seq<char>
    decreases n,
{
    if n < 10 {
        seq![digit_char(n)]
    } else {
        digits(n / 10).push(digit_char(n % 10))
    }
}

/// `n` in decimal, with a leading minus sign when it is negative.
pub open spec fn decimal(n: int) -> Seq<char> {
    if n < 0 {
        seq!['-'] + digits((-n) as nat)
    } else {
        digits(n as nat)
    }
}

/// Relies on itoa's `Buffer::format` for an `i32`: the number in decimal,
/// with a leading minus sign when it is negative.
#[verifier::external_body]
fn format_score(n: i32) -> (r: String)
    ensures
        r@ == decimal(n as int),
{
    let mut buffer = itoa::Buffer::new();
    buffer.format(n).to_owned()
}

/// One heart, `<3 `, per point of health.
pub open spec fn hearts(hp: nat) -> Seq<char>
    decreases hp,
{
    if hp == 0 {
        Seq::empty()
    } else {
        hearts((hp - 1) as nat) + "<3 "@
    }
}

fn hp_text(hp: u8) -> (r: String)
    ensures
        r@ == hearts(hp as nat),
{
    let mut text = String::new();
    let mut i: u8 = 0;
    while i < hp
        invariant
            i <= hp,
            text@ == hearts(i as nat),
        decreases hp - i,
    {
        text.append("<3 ");
        i += 1;
    }
    text
}

/// Where the title and the texts go, in pixels.
pub open spec fn at(x: int, y: int) -> PixelPoint {
    PixelPoint { x: x as i32, y: y as i32 }
}

/// The whole game: round state, clock, seed, operator, entities, spawner.
pub struct Game {
    pub state: GameState,
    /// When the last tick was executed.
    pub time: Option<Instant>,
    /// Seed of the next round's spawner.
    pub seed: u64,
    pub pudge: Pudge,
    pub object_handler: ObjectHandler,
    pub spawner: Option<Spawner>,
}

impl Game {
    pub open spec fn wf(&self) -> bool {
        &&& self.pudge.wf()
        &&& self.object_handler.wf()
        &&& now_ticks(self.time) <= HALF_RANGE
        &&& self.spawner matches Some(sp) ==> sp.wf() && sp.last_spawn.ticks <= now_ticks(
            self.time,
        )
    }

    /// A tick on the title or after a round: the selector is placed if it
    /// is not yet, the hook moves, and a catch brought back starts a round
    /// (after a finished round, with the next seed, a fresh spawner and the
    /// operator back at the start).
    pub open spec fn selector_step(g: Game, f: Game) -> bool {
        let needs = g.state == GameState::Init(false) || g.state matches GameState::GameOver(
            false,
            _,
        );
        let st0 = if needs {
            g.state.spec_set_started()
        } else {
            g.state
        };
        let objs0 = if needs {
            inserted(g.object_handler@, selector())
        } else {
            g.object_handler@
        };
        let (hooked_pudge, objs1, sig) = g.pudge.spec_tick(objs0);
        let start = sig matches Some(PudgeSignal::Reeled(Some(_)));
        &&& f.object_handler@ == objs1
        &&& f.time == g.time
        &&& f.state == if start {
            st0.spec_next()
        } else {
            st0
        }
        &&& if start && st0 is GameOver {
            &&& f.seed == (g.seed + SEED_STEP) % 0x1_0000_0000_0000_0000int
            &&& f.pudge == Pudge::spec_default()
            &&& f.spawner matches Some(sp) && sp.is_fresh(CREEP_PER_M, START_BASE_SPEED)
        } else {
            &&& f.seed == g.seed
            &&& f.pudge == hooked_pudge
            &&& f.spawner == g.spawner
        }
    }

    /// A tick of a round: the hook moves and its signal scores; every entity
    /// advances; the first ones to leave the field are removed, each
    /// Radiant creature among them costing health; then the spawner may add
    /// a creature.
    pub open spec fn round_step(g: Game, f: Game) -> bool {
        let (hooked_pudge, objs1, sig) = g.pudge.spec_tick(g.object_handler@);
        let st1 = after_signal(g.state, sig);
        let objs2 = objs1.map_values(|o: GameObject| ticked(o));
        let (st2, objs3) = after_removals(st1, objs2, removal_batch(leaving_ids(objs1)));
        &&& f.pudge == hooked_pudge
        &&& f.state == st2
        &&& f.seed == g.seed
        &&& f.time == g.time
        &&& match g.spawner {
            None => f.spawner is None && f.object_handler@ == objs3,
            Some(sp) => f.spawner is Some && exists|r: Option<GameObject>|
                {
                    &&& #[trigger] spawn_outcome(sp, g.time.unwrap(), f.spawner.unwrap(), r)
                    &&& f.object_handler@ == match r {
                        Some(o) => inserted(objs3, o),
                        None => objs3,
                    }
                },
        }
    }

    /// Starts a round's resources: the operator at its start and a fresh
    /// spawner seeded with `seed`.
    pub fn init(&mut self)
        requires
            old(self).wf(),
        ensures
            final(self).wf(),
            final(self).pudge == Pudge::spec_default(),
            final(self).spawner matches Some(sp) && sp.is_fresh(CREEP_PER_M, START_BASE_SPEED),
            final(self).state == old(self).state,
            final(self).time == old(self).time,
            final(self).seed == old(self).seed,
            final(self).object_handler@ == old(self).object_handler@,
    {
        self.pudge = Pudge::default();
        self.spawner = Some(Spawner::new(CREEP_PER_M, self.seed, START_BASE_SPEED));
    }

    pub fn set_seed(&mut self, seed: u64)
        ensures
            final(self).seed == seed,
            final(self).state == old(self).state,
            final(self).time == old(self).time,
            final(self).pudge == old(self).pudge,
            final(self).object_handler@ == old(self).object_handler@,
            final(self).spawner == old(self).spawner,
    {
        self.seed = seed;
    }

    /// Runs a tick at `new_time` once at least `TICK_RATE` microseconds have
    /// passed since the last executed one; the first call only starts the
    /// clock. Time may not run backward, and the timer stays within half its
    /// range.
    pub fn process(&mut self, new_time: Instant)
        requires
            old(self).wf(),
            new_time.ticks <= HALF_RANGE,
            old(self).time matches Some(t) ==> t.ticks <= new_time.ticks,
        ensures
            final(self).wf(),
            match old(self).time {
                None => final(self).time == Some(new_time) && final(self).state == old(self).state
                    && final(self).seed == old(self).seed && final(self).pudge == old(self).pudge
                    && final(self).object_handler@ == old(self).object_handler@
                    && final(self).spawner == old(self).spawner,
                Some(t) => if new_time.ticks - t.ticks < TICK_RATE {
                    *final(self) == *old(self)
                } else {
                    let g = Game { time: Some(new_time), ..*old(self) };
                    if g.state is Hookin {
                        Game::round_step(g, *final(self))
                    } else {
                        Game::selector_step(g, *final(self))
                    }
                },
            },
    {
        match self.time {
            None => {
                self.time = Some(new_time);
            },
            Some(t) => {
                proof {
                    lemma_since_in_range(new_time.ticks, t.ticks);
                }
                let delta = new_time.checked_duration_since(t).unwrap();
                if delta < TICK_RATE {
                    return;
                }
                self.time = Some(new_time);
                match self.state {
                    GameState::Hookin(_, _) => self.main_tick(),
                    _ => self.selector_tick(),
                }
            },
        }
    }

    fn selector_tick(&mut self)
        requires
            old(self).wf(),
            !(old(self).state is Hookin),
        ensures
            final(self).wf(),
            Game::selector_step(*old(self), *final(self)),
    {
        let needs = match self.state {
            GameState::Init(false) => true,
            GameState::GameOver(false, _) => true,
            _ => false,
        };
        if needs {
            self.insert_selector();
        }
        let pudge_signal = self.pudge.tick(&mut self.object_handler);
        if let Some(PudgeSignal::Reeled(Some(_))) = pudge_signal {
            if let GameState::GameOver(_, _) = self.state {
                self.seed = self.seed.wrapping_add(SEED_STEP);
                self.init();
            }
            self.state.next();
        }
    }

    fn insert_selector(&mut self)
        requires
            old(self).wf(),
        ensures
            final(self).wf(),
            final(self).state == old(self).state.spec_set_started(),
            final(self).object_handler@ == inserted(old(self).object_handler@, selector()),
            final(self).time == old(self).time,
            final(self).seed == old(self).seed,
            final(self).pudge == old(self).pudge,
            final(self).spawner == old(self).spawner,
    {
        let starter_creep = GameObject::make_creep(
            SELECTOR_ID,
            GamePoint::new(SELECTOR_X, SELECTOR_Y),
            Creep::Radiant,
            0,
        );
        self.object_handler.insert(starter_creep);
        self.state.set_started();
    }

    fn main_tick(&mut self)
        requires
            old(self).wf(),
            old(self).state is Hookin,
            old(self).time is Some,
        ensures
            final(self).wf(),
            Game::round_step(*old(self), *final(self)),
    {
        let ghost g = *self;
        let pudge_signal = self.pudge.tick(&mut self.object_handler);
        match pudge_signal {
            Some(PudgeSignal::Hooked(obj)) => {
                if obj.game_type == Hookable::Creep(Creep::Radiant) {
                    let points = obj.calculate_score();
                    let points: i16 = if points > i16::MAX as u32 {
                        i16::MAX
                    } else {
                        points as i16
                    };
                    self.state.add_score(points);
                }
            },
            Some(PudgeSignal::Missed) => {
                self.state.add_score(MISS_PENALTY);
            },
            _ => {},
        }
        let ghost st1 = self.state;
        let leaving = self.object_handler.tick_all();
        let ghost objs2 = self.object_handler@;
        let n = if leaving.len() < MAX_REMOVALS {
            leaving.len()
        } else {
            MAX_REMOVALS
        };
        let ghost batch = removal_batch(leaving@);
        assert(batch.len() == n);
        let mut k: usize = 0;
        while k < n
            invariant
                0 <= k <= n,
                n <= leaving@.len(),
                batch == removal_batch(leaving@),
                batch.len() == n,
                self.object_handler.wf(),
                (self.state, self.object_handler@) == after_removals(
                    st1,
                    objs2,
                    batch.take(k as int),
                ),
                self.pudge == g.pudge.spec_tick(g.object_handler@).0,
                self.pudge.wf(),
                self.time == g.time,
                self.seed == g.seed,
                self.spawner == g.spawner,
            decreases n - k,
        {
            let id = leaving[k];
            assert(batch[k as int] == id);
            assert(batch.take(k as int + 1).drop_last() == batch.take(k as int));
            let removed = self.object_handler.remove(id);
            if let Some(deleted_obj) = removed {
                if deleted_obj.game_type == Hookable::Creep(Creep::Radiant) {
                    if let GameState::Hookin(_, _) = self.state {
                        self.state.damage();
                    }
                }
            }
            k += 1;
        }
        assert(batch.take(n as int) == batch);
        let taken = self.spawner.take();
        match taken {
            Some(mut spawn) => {
                let now = self.time.unwrap();
                proof {
                    lemma_since_in_range(now.ticks, spawn.last_spawn.ticks);
                }
                let r = spawn.try_spawn(now);
                match r {
                    Some(object) => {
                        self.object_handler.insert(object);
                    },
                    None => {},
                }
                self.spawner = Some(spawn);
                assert(spawn_outcome(g.spawner.unwrap(), g.time.unwrap(), self.spawner.unwrap(), r));
            },
            None => {},
        }
    }

    /// Applies an action to the operator.
    pub fn control(&mut self, controls: ControlEnum)
        requires
            old(self).wf(),
        ensures
            final(self).wf(),
            final(self).pudge == old(self).pudge.spec_act(Some(controls)),
            final(self).state == old(self).state,
            final(self).time == old(self).time,
            final(self).seed == old(self).seed,
            final(self).object_handler@ == old(self).object_handler@,
            final(self).spawner == old(self).spawner,
    {
        self.pudge.act(Some(controls));
    }

    /// Drains `queue` and applies its actions to the operator, oldest first.
    pub fn apply_actions(&mut self, queue: &mut ActionQueue)
        requires
            old(self).wf(),
            old(queue).wf(),
        ensures
            final(self).wf(),
            final(queue).wf(),
            final(queue)@ == Seq::<ControlEnum>::empty(),
            final(self).pudge == acted_all(old(self).pudge, old(queue)@),
            final(self).state == old(self).state,
            final(self).time == old(self).time,
            final(self).seed == old(self).seed,
            final(self).object_handler@ == old(self).object_handler@,
            final(self).spawner == old(self).spawner,
    {
        let actions = queue.drain();
        let mut i: usize = 0;
        while i < actions.len()
            invariant
                0 <= i <= actions@.len(),
                actions@ == old(queue)@,
                self.wf(),
                self.pudge == acted_all(old(self).pudge, actions@.take(i as int)),
                self.state == old(self).state,
                self.time == old(self).time,
                self.seed == old(self).seed,
                self.object_handler@ == old(self).object_handler@,
                self.spawner == old(self).spawner,
            decreases actions@.len() - i,
        {
            assert(actions@.take(i as int + 1).drop_last() == actions@.take(i as int));
            self.control(actions[i]);
            i += 1;
        }
        assert(actions@.take(actions@.len() as int) == actions@);
    }
}

impl Game {
    /// Number of items that `draw` puts before the entities.
    pub open spec fn header_len(&self) -> int {
        if self.state is Init {
            1
        } else {
            2
        }
    }

    /// The frame: the title, or the score and health, or the final score and
    /// the game-over line; then every entity in order of identifier; then
    /// the operator and its hook.
    pub fn draw(&self) -> (r: Vec<DrawItem>)
        requires
            self.wf(),
        ensures
            ({
                let h = self.header_len();
                let objs = self.object_handler@;
                let n = objs.len();
                &&& r@.len() == h + n + if self.pudge.state is Walking {
                    1int
                } else {
                    2int
                }
                &&& match self.state {
                    GameState::Init(_) => r@[0] matches DrawItem::Splash(p) && p == at(0, 0),
                    GameState::Hookin(score, hp) => {
                        &&& is_text(r@[0], decimal(score as int), at(2, 4), TextAlign::TopLeft)
                        &&& is_text(r@[1], hearts(hp as nat), at(124, 6), TextAlign::BaselineRight)
                    },
                    GameState::GameOver(_, score) => {
                        &&& is_text(r@[0], decimal(score as int), at(64, 4), TextAlign::TopLeft)
                        &&& is_text(r@[1], "GAME OVER, TRY AGAIN?"@, at(36, 32), TextAlign::TopLeft)
                    },
                }
                &&& forall|i: int|
                    0 <= i < n ==> is_image(
                        #[trigger] r@[h + i],
                        objs[i].sprite_type,
                        objs[i].location.spec_to_pixel(),
                    )
                &&& is_image(r@[h + n], Sprite::Pudge, self.pudge.location.spec_to_pixel())
                &&& self.pudge.state matches PudgeState::Hooking(hook, _) ==> is_image(
                    r@[h + n + 1],
                    Sprite::Hook,
                    hook.spec_to_pixel(),
                )
            }),
    {
        let mut items: Vec<DrawItem> = Vec::new();
        match self.state {
            GameState::Init(_) => {
                items.push(DrawItem::Splash(PixelPoint { x: 0, y: 0 }));
            },
            GameState::Hookin(score, hp) => {
                items.push(DrawItem::Text(format_score(score), PixelPoint { x: 2, y: 4 }, TextAlign::TopLeft));
                items.push(DrawItem::Text(hp_text(hp), PixelPoint { x: 124, y: 6 }, TextAlign::BaselineRight));
            },
            GameState::GameOver(_, score) => {
                items.push(DrawItem::Text(format_score(score), PixelPoint { x: 64, y: 4 }, TextAlign::TopLeft));
                items.push(
                    DrawItem::Text(
                        String::from_str("GAME OVER, TRY AGAIN?"),
                        PixelPoint { x: 36, y: 32 },
                        TextAlign::TopLeft,
                    ),
                );
            },
        }
        let ghost h = self.header_len();
        let ghost header = items@;
        assert(self.state is GameOver ==> is_text(header[1], "GAME OVER, TRY AGAIN?"@, at(36, 32), TextAlign::TopLeft));
        assert(self.state is GameOver ==> is_text(header[0], decimal(self.state->GameOver_1 as int), at(64, 4), TextAlign::TopLeft));
        assert(self.state is Hookin ==> is_text(header[1], hearts(self.state->Hookin_1 as nat), at(124, 6), TextAlign::BaselineRight));
        assert(self.state is Init ==> (header[0] matches DrawItem::Splash(p) && p == at(0, 0)));
        let objects = self.object_handler.iter();
        let mut i: usize = 0;
        while i < objects.len()
            invariant
                0 <= i <= objects@.len(),
                objects@ == self.object_handler@,
                items@.len() == h + i,
                header.len() == h,
                forall|j: int| 0 <= j < h ==> items@[j] == header[j],
                forall|j: int|
                    0 <= j < i ==> is_image(
                        #[trigger] items@[h + j],
                        objects@[j].sprite_type,
                        objects@[j].location.spec_to_pixel(),
                    ),
            decreases objects@.len() - i,
        {
            let item = objects[i].draw();
            let ghost before = items@;
            items.push(item);
            assert(items@ == before.push(item));
            assert(items@[h + i] == item);
            i += 1;
        }
        let ghost body = items@;
        let mut operator = self.pudge.draw();
        let ghost tail = operator@;
        items.append(&mut operator);
        assert(items@ == body + tail);
        assert(forall|j: int| 0 <= j < body.len() ==> items@[j] == body[j]);
        assert(forall|j: int| 0 <= j < tail.len() ==> items@[body.len() + j] == tail[j]);
        items
    }
}

impl Default for Game {
    fn default() -> (r: Game)
        ensures
            r.wf(),
            r.state == GameState::Init(false),
            r.time is None,
            r.seed == 0,
            r.pudge == Pudge::spec_default(),
            r.object_handler@ == Seq::<GameObject>::empty(),
            r.spawner is None,
    {
        Game {
            state: GameState::Init(false),
            spawner: None,
            time: None,
            seed: 0,
            pudge: Pudge::default(),
            object_handler: ObjectHandler::new(),
        }
    }
}

} // verus!
