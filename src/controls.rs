//! Abstract input: action symbols, the quadrature decoder of a rotary
//! encoder, and the bounded queue that carries actions from an input source
//! to the simulation loop.

use vstd::prelude::*;

verus! {

/// An abstract input symbol, whatever front-end produced it.
#[derive(PartialEq, Eq, Structural, Debug, Clone, Copy)]
pub enum ControlEnum {
    Left,
    Right,
    Hook,
    /// No action: a no-op wherever it is applied.
    Idle,
}

impl ControlEnum {
    pub fn is_none(&self) -> (r: bool)
        ensures
            r == (*self == ControlEnum::Idle),
    {
        *self == ControlEnum::Idle
    }

    pub fn is_some(&self) -> (r: bool)
        ensures
            r == (*self != ControlEnum::Idle),
    {
        *self != ControlEnum::Idle
    }
}

impl ControlEnum {
    /// The action for a wheel turned by `delta_y`: up is left, down is
    /// right, no turn is no action.
    pub fn from_scroll(delta_y: i32) -> (r: ControlEnum)
        ensures
            r == if delta_y > 0 {
                ControlEnum::Left
            } else if delta_y < 0 {
                ControlEnum::Right
            } else {
                ControlEnum::Idle
            },
    {
        if delta_y > 0 {
            return ControlEnum::Left;
        }
        if delta_y < 0 {
            return ControlEnum::Right;
        }
        ControlEnum::Idle
    }
}

/// Positions of a quadrature encoder between two detents.
#[derive(PartialEq, Eq, Structural, Debug, Clone, Copy)]
pub enum Rotary {
    /// Both lines high: at rest on a detent.
    Rotary0,
    /// Line A low, B high: a clockwise turn has begun.
    Rotary1,
    /// Both lines low: halfway.
    Rotary2,
    /// Line A high, B low: a counter-clockwise turn has begun.
    Rotary3,
}

#[derive(PartialEq, Eq, Structural, Debug, Clone, Copy)]
pub enum Direction {
    Clockwise,
    CounterClock,
}

/// Turns samples of a rotary encoder's two lines into left and right steps.
#[derive(PartialEq, Eq, Structural, Debug, Clone, Copy)]
pub struct RotaryDecoder {
    pub rotary: Rotary,
    /// The direction in which the current turn began, if any.
    pub direction: Option<Direction>,
}

impl RotaryDecoder {
    /// The decoder after a sample of line A and line B, and the action that
    /// the sample completes. A turn counts only when it ends on the detent
    /// in the direction it began; any other return to the detent resets it.
    pub open spec fn spec_step(self, a_high: bool, b_high: bool) -> (RotaryDecoder, Option<
        ControlEnum,
    >) {
        let neutral = RotaryDecoder { rotary: Rotary::Rotary0, direction: None };
        if self.rotary == Rotary::Rotary0 && !a_high && b_high {
            (RotaryDecoder { rotary: Rotary::Rotary1, direction: Some(Direction::Clockwise) }, None)
        } else if self.rotary == Rotary::Rotary3 && self.direction == Some(Direction::Clockwise)
            && a_high && b_high {
            (neutral, Some(ControlEnum::Right))
        } else if self.rotary == Rotary::Rotary0 && a_high && !b_high {
            (
                RotaryDecoder {
                    rotary: Rotary::Rotary3,
                    direction: Some(Direction::CounterClock),
                },
                None,
            )
        } else if self.rotary == Rotary::Rotary1 && self.direction == Some(
            Direction::CounterClock,
        ) && a_high && b_high {
            (neutral, Some(ControlEnum::Left))
        } else if a_high && b_high {
            (neutral, None)
        } else {
            let rotary = if !a_high && b_high {
                Rotary::Rotary1
            } else if !a_high && !b_high {
                Rotary::Rotary2
            } else {
                Rotary::Rotary3
            };
            (RotaryDecoder { rotary, ..self }, None)
        }
    }

    /// A decoder at rest on a detent.
    pub fn new() -> (r: RotaryDecoder)
        ensures
            r == (RotaryDecoder { rotary: Rotary::Rotary0, direction: None }),
    {
        RotaryDecoder { rotary: Rotary::Rotary0, direction: None }
    }

    /// Feeds one sample of the two lines; returns the action it completes.
    pub fn step(&mut self, a_high: bool, b_high: bool) -> (r: Option<ControlEnum>)
        ensures
            (*final(self), r) == old(self).spec_step(a_high, b_high),
    {
        let mut action: Option<ControlEnum> = None;
        match (self.rotary, self.direction, a_high, b_high) {
            (Rotary::Rotary0, _, false, true) => {
                self.direction = Some(Direction::Clockwise);
                self.rotary = Rotary::Rotary1;
            },
            (Rotary::Rotary3, Some(Direction::Clockwise), true, true) => {
                action = Some(ControlEnum::Right);
                self.rotary = Rotary::Rotary0;
                self.direction = None;
            },
            (Rotary::Rotary0, _, true, false) => {
                self.direction = Some(Direction::CounterClock);
                self.rotary = Rotary::Rotary3;
            },
            (Rotary::Rotary1, Some(Direction::CounterClock), true, true) => {
                action = Some(ControlEnum::Left);
                self.rotary = Rotary::Rotary0;
                self.direction = None;
            },
            (_, _, true, true) => {
                self.rotary = Rotary::Rotary0;
                self.direction = None;
            },
            (_, _, false, true) => {
                self.rotary = Rotary::Rotary1;
            },
            (_, _, false, false) => {
                self.rotary = Rotary::Rotary2;
            },
            (_, _, true, false) => {
                self.rotary = Rotary::Rotary3;
            },
        }
        action
    }
}

/// Number of slots of the action queue.
pub const QUEUE_SLOTS: usize = 8;

/// `n` slots are filled, from the first one on, and the rest are empty.
pub open spec fn packed(slots: Seq<Option<ControlEnum>>, n: int) -> bool {
    &&& 0 <= n <= slots.len()
    &&& forall|i: int| 0 <= i < n ==> slots[i] is Some
    &&& forall|i: int| n <= i < slots.len() ==> slots[i] is None
}

proof fn lemma_packed_unique(slots: Seq<Option<ControlEnum>>, n: int, m: int)
    requires
        packed(slots, n),
        packed(slots, m),
    ensures
        n == m,
{
    if n < m {
        assert(slots[n] is Some);
    } else if m < n {
        assert(slots[m] is Some);
    }
}

/// The queue `q` after `action` arrives: appended if a slot is free.
pub open spec fn queued(q: Seq<ControlEnum>, action: ControlEnum) -> Seq<ControlEnum> {
    if q.len() < QUEUE_SLOTS {
        q.push(action)
    } else {
        q
    }
}

/// The queue `q` after each of `actions` arrives, in order.
pub open spec fn queued_all(q: Seq<ControlEnum>, actions: Seq<ControlEnum>) -> Seq<ControlEnum>
    decreases actions.len(),
{
    if actions.len() == 0 {
        q
    } else {
        queued(queued_all(q, actions.drop_last()), actions.last())
    }
}

/// Actions pushed onto an empty queue with no drain between: the first
/// ones are kept, as many as there are slots, in the order they came; the
/// rest are dropped.
pub proof fn lemma_queue_keeps_first(actions: Seq<ControlEnum>)
    ensures
        queued_all(Seq::empty(), actions) == actions.take(
            if actions.len() < QUEUE_SLOTS { actions.len() as int } else { QUEUE_SLOTS as int },
        ),
    decreases actions.len(),
{
    if actions.len() > 0 {
        let prev = actions.drop_last();
        lemma_queue_keeps_first(prev);
        if prev.len() < QUEUE_SLOTS {
            assert(prev.take(prev.len() as int).push(actions.last()) =~= actions.take(
                actions.len() as int,
            ));
        } else {
            assert(prev.take(QUEUE_SLOTS as int) =~= actions.take(QUEUE_SLOTS as int));
        }
    }
}

/// A fixed-capacity queue of actions, written by an input source and
/// drained whole by the simulation loop once per tick. An action that finds
/// every slot filled is dropped.
pub struct ActionQueue {
    slots: [Option<ControlEnum>; QUEUE_SLOTS],
}

impl ActionQueue {
    pub closed spec fn filled(&self) -> int {
        choose|n: int| packed(self.slots@, n)
    }

    pub closed spec fn wf(&self) -> bool {
        exists|n: int| packed(self.slots@, n)
    }
}

impl View for ActionQueue {
    type V = Seq<ControlEnum>;

    /// The queued actions, oldest first.
    closed spec fn view(&self) -> Seq<ControlEnum> {
        Seq::new(self.filled() as nat, |i: int| self.slots@[i]->0)
    }
}

impl ActionQueue {
    pub fn new() -> (r: ActionQueue)
        ensures
            r.wf(),
            r@ == Seq::<ControlEnum>::empty(),
    {
        let r = ActionQueue { slots: [None, None, None, None, None, None, None, None] };
        assert(packed(r.slots@, 0));
        proof {
            lemma_packed_unique(r.slots@, 0, r.filled());
        }
        assert(r@ =~= Seq::<ControlEnum>::empty());
        r
    }

    /// Stores `action` in the first empty slot; drops it when there is none.
    pub fn push(&mut self, action: ControlEnum)
        requires
            old(self).wf(),
        ensures
            final(self).wf(),
            final(self)@ == queued(old(self)@, action),
    {
        let ghost n = self.filled();
        assert(packed(self.slots@, n));
        let mut i: usize = 0;
        while i < QUEUE_SLOTS && self.slots[i].is_some()
            invariant
                0 <= i <= QUEUE_SLOTS,
                packed(self.slots@, n),
                forall|j: int| 0 <= j < i ==> self.slots@[j] is Some,
            decreases QUEUE_SLOTS - i,
        {
            i += 1;
        }
        if i == QUEUE_SLOTS {
            assert(n == QUEUE_SLOTS) by {
                if n < QUEUE_SLOTS {
                    assert(self.slots@[n] is Some);
                }
            }
            return;
        }
        assert(i == n) by {
            if n < i {
                assert(self.slots@[n] is Some);
            }
        }
        let ghost before = *self;
        self.slots[i] = Some(action);
        assert(packed(self.slots@, n + 1));
        proof {
            lemma_packed_unique(self.slots@, n + 1, self.filled());
        }
        assert(self@ =~= before@.push(action));
    }

    /// Takes every queued action, oldest first, and leaves the queue empty.
    pub fn drain(&mut self) -> (r: Vec<ControlEnum>)
        requires
            old(self).wf(),
        ensures
            final(self).wf(),
            final(self)@ == Seq::<ControlEnum>::empty(),
            r@ == old(self)@,
    {
        let taken = self.slots;
        self.slots = [None, None, None, None, None, None, None, None];
        let ghost n = choose|n: int| packed(taken@, n);
        assert(packed(taken@, n));
        let mut out: Vec<ControlEnum> = Vec::new();
        let mut i: usize = 0;
        while i < QUEUE_SLOTS
            invariant
                0 <= i <= n,
                packed(taken@, n),
                out@ == Seq::new(i as nat, |j: int| taken@[j]->0),
            ensures
                i == n,
                out@ == Seq::new(i as nat, |j: int| taken@[j]->0),
            decreases QUEUE_SLOTS - i,
        {
            match taken[i] {
                Some(action) => out.push(action),
                None => break,
            }
            assert(out@ =~= Seq::new((i + 1) as nat, |j: int| taken@[j]->0));
            i += 1;
        }
        assert(packed(self.slots@, 0));
        proof {
            lemma_packed_unique(self.slots@, 0, self.filled());
        }
        assert(self@ =~= Seq::<ControlEnum>::empty());
        assert(out@ =~= old(self)@);
        out
    }
}

} // verus!
