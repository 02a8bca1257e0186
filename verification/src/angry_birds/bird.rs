use vstd::prelude::*;

use crate::palette::PaletteColor;

verus! {

/// The kinds of bird that a level hands out.
#[derive(Clone, Copy, Debug, PartialEq, Eq, Structural)]
pub enum BirdType {
    Red,
    Blue,
    Yellow,
    Black,
    White,
}

/// What a launched bird does when its special ability is triggered.
#[derive(Clone, Copy, Debug, PartialEq, Eq, Structural)]
pub enum BirdAbility {
    /// An upward push (red bird).
    Boost,
    /// The bird splits into three smaller blue birds.
    Split,
    /// The bird's velocity is multiplied (yellow bird).
    SpeedUp,
    /// An explosion that pushes the bodies around the bird (black bird).
    Bomb,
    /// The bird drops two eggs (white bird).
    DropEggs,
}

/// The colour each kind of bird is drawn in.
pub open spec fn bird_color(t: BirdType) -> PaletteColor {
    match t {
        BirdType::Red => PaletteColor::Red,
        BirdType::Blue => PaletteColor::Blue,
        BirdType::Yellow => PaletteColor::Yellow,
        BirdType::Black => PaletteColor::Black,
        BirdType::White => PaletteColor::White,
    }
}

/// The ability that each kind of bird has.
pub open spec fn bird_ability(t: BirdType) -> BirdAbility {
    match t {
        BirdType::Red => BirdAbility::Boost,
        BirdType::Blue => BirdAbility::Split,
        BirdType::Yellow => BirdAbility::SpeedUp,
        BirdType::Black => BirdAbility::Bomb,
        BirdType::White => BirdAbility::DropEggs,
    }
}

/// The birds that an ability adds to the scene: their kind and how many.
pub open spec fn ability_offspring(a: BirdAbility) -> Option<(BirdType, u32)> {
    match a {
        BirdAbility::Split => Some((BirdType::Blue, 3u32)),
        BirdAbility::DropEggs => Some((BirdType::White, 2u32)),
        _ => None,
    }
}

impl BirdType {
    /// The colour a bird of this kind is drawn in.
    pub fn color(&self) -> (c: PaletteColor)
        ensures
            c == bird_color(*self),
    {
        match self {
            BirdType::Red => PaletteColor::Red,
            BirdType::Blue => PaletteColor::Blue,
            BirdType::Yellow => PaletteColor::Yellow,
            BirdType::Black => PaletteColor::Black,
            BirdType::White => PaletteColor::White,
        }
    }

    /// The ability of a bird of this kind.
    pub fn ability(&self) -> (a: BirdAbility)
        ensures
            a == bird_ability(*self),
    {
        match self {
            BirdType::Red => BirdAbility::Boost,
            BirdType::Blue => BirdAbility::Split,
            BirdType::Yellow => BirdAbility::SpeedUp,
            BirdType::Black => BirdAbility::Bomb,
            BirdType::White => BirdAbility::DropEggs,
        }
    }

    /// The hint shown while a bird of this kind sits in the slingshot.
    pub fn ability_hint(&self) -> (s: &'static str)
        ensures
            s@ == (match *self {
                BirdType::Red => "SPACE: Boost"@,
                BirdType::Blue => "SPACE: Split"@,
                BirdType::Yellow => "SPACE: Speed"@,
                BirdType::Black => "SPACE: Bomb"@,
                BirdType::White => "SPACE: Drop Egg"@,
            }),
    {
        match self {
            BirdType::Red => "SPACE: Boost",
            BirdType::Blue => "SPACE: Split",
            BirdType::Yellow => "SPACE: Speed",
            BirdType::Black => "SPACE: Bomb",
            BirdType::White => "SPACE: Drop Egg",
        }
    }
}

impl BirdAbility {
    /// The birds this ability adds to the scene, if any: their kind and count.
    pub fn offspring(&self) -> (r: Option<(BirdType, u32)>)
        ensures
            r == ability_offspring(*self),
    {
        match self {
            BirdAbility::Split => Some((BirdType::Blue, 3)),
            BirdAbility::DropEggs => Some((BirdType::White, 2)),
            _ => None,
        }
    }
}

/// The discrete state of one bird: its kind and where it stands in its life.
///
/// Its position and physics body are kept by the front end.
#[derive(Clone, Copy, Debug, PartialEq, Eq, Structural)]
pub struct Bird {
    pub bird_type: BirdType,
    pub launched: bool,
    pub used: bool,
    pub active: bool,
    pub ability_triggered: bool,
}

/// Whether a bird may still trigger its ability: it has been launched, is in
/// play, and has not used the ability yet.
pub open spec fn can_use_ability(b: Bird) -> bool {
    !b.ability_triggered && b.active && b.launched
}

/// A bird can use its ability exactly when it has been launched, is in play
/// and has not used it yet, whatever its kind; a bird waiting in the slingshot
/// never can.
pub proof fn lemma_ability_needs_launch(b: Bird)
    ensures
        can_use_ability(b) <==> (b.launched && b.active && !b.ability_triggered),
        !b.launched ==> !can_use_ability(b),
{
}

/// Each kind of bird has its own ability, and only the split and the eggs
/// bring new birds: three blue ones and two white ones.
pub proof fn lemma_ability_table()
    ensures
        bird_ability(BirdType::Red) == BirdAbility::Boost,
        bird_ability(BirdType::Blue) == BirdAbility::Split,
        bird_ability(BirdType::Yellow) == BirdAbility::SpeedUp,
        bird_ability(BirdType::Black) == BirdAbility::Bomb,
        bird_ability(BirdType::White) == BirdAbility::DropEggs,
        ability_offspring(BirdAbility::Split) == Some((BirdType::Blue, 3u32)),
        ability_offspring(BirdAbility::DropEggs) == Some((BirdType::White, 2u32)),
        ability_offspring(BirdAbility::Boost) is None,
        ability_offspring(BirdAbility::SpeedUp) is None,
        ability_offspring(BirdAbility::Bomb) is None,
        bird_color(BirdType::Red) == PaletteColor::Red,
        bird_color(BirdType::Blue) == PaletteColor::Blue,
        bird_color(BirdType::Yellow) == PaletteColor::Yellow,
        bird_color(BirdType::Black) == PaletteColor::Black,
        bird_color(BirdType::White) == PaletteColor::White,
{
}

impl Bird {
    /// A fresh bird of the given kind, as a value.
    pub open spec fn spec_new(bird_type: BirdType) -> Bird {
        Bird { bird_type, launched: false, used: false, active: true, ability_triggered: false }
    }

    /// A fresh bird of the given kind: not launched, not used, in play, ability
    /// still available.
    pub fn new(bird_type: BirdType) -> (b: Bird)
        ensures
            b == Bird::spec_new(bird_type),
    {
        Bird { bird_type, launched: false, used: false, active: true, ability_triggered: false }
    }

    /// The colour this bird is drawn in.
    pub fn get_color(&self) -> (c: PaletteColor)
        ensures
            c == bird_color(self.bird_type),
    {
        self.bird_type.color()
    }

    /// Triggers the bird's ability if it may still be used.
    ///
    /// Returns the ability to carry out, and marks it as used; a bird that is
    /// not launched, not in play or has already used its ability is left
    /// unchanged and `None` comes back.
    pub fn use_ability(&mut self) -> (r: Option<BirdAbility>)
        ensures
            can_use_ability(*old(self)) ==> {
                &&& r == Some(bird_ability(old(self).bird_type))
                &&& *final(self) == (Bird { ability_triggered: true, ..*old(self) })
            },
            !can_use_ability(*old(self)) ==> r is None && *final(self) == *old(self),
            !old(self).launched || !old(self).active || old(self).ability_triggered ==> r is None
                && *final(self) == *old(self),
            r is Some ==> old(self).launched && old(self).active && !old(self).ability_triggered
                && final(self).ability_triggered,
    {
        proof {
            lemma_ability_needs_launch(*old(self));
        }
        if self.ability_triggered || !self.active || !self.launched {
            return None;
        }
        self.ability_triggered = true;
        Some(self.bird_type.ability())
    }
}

/// The queue of birds a level hands out, with the index of the next one.
pub struct BirdQueue {
    pub birds: Vec<BirdType>,
    pub current_index: usize,
}

/// The mathematical value of a bird queue.
pub struct BirdQueueView {
    pub birds: Seq<BirdType>,
    pub current_index: int,
}

impl BirdQueueView {
    /// The next bird to hand out, if any is left.
    pub open spec fn next(self) -> Option<BirdType> {
        if 0 <= self.current_index < self.birds.len() {
            Some(self.birds[self.current_index])
        } else {
            None
        }
    }

    /// The queue once the next bird has been handed out; a queue with none left
    /// stays as it is.
    pub open spec fn advanced(self) -> BirdQueueView {
        if self.current_index < self.birds.len() {
            BirdQueueView { birds: self.birds, current_index: self.current_index + 1 }
        } else {
            self
        }
    }

    /// The queue after `k` birds have been handed out.
    pub open spec fn advanced_by(self, k: nat) -> BirdQueueView
        decreases k,
    {
        if k == 0 {
            self
        } else {
            self.advanced_by((k - 1) as nat).advanced()
        }
    }

    /// How many birds are left to hand out.
    pub open spec fn remaining(self) -> nat {
        if self.current_index <= self.birds.len() {
            (self.birds.len() - self.current_index) as nat
        } else {
            0
        }
    }
}

impl View for BirdQueue {
    type V = BirdQueueView;

    open spec fn view(&self) -> BirdQueueView {
        BirdQueueView { birds: self.birds@, current_index: self.current_index as int }
    }
}

impl BirdQueue {
    /// A queue at its start.
    pub fn new(bird_types: Vec<BirdType>) -> (q: BirdQueue)
        ensures
            q@ == (BirdQueueView { birds: bird_types@, current_index: 0 }),
    {
        BirdQueue { birds: bird_types, current_index: 0 }
    }

    /// The next bird to hand out, if any is left.
    pub fn get_next(&self) -> (r: Option<BirdType>)
        ensures
            r == self@.next(),
    {
        if self.current_index < self.birds.len() {
            Some(self.birds[self.current_index])
        } else {
            None
        }
    }

    /// Moves past the next bird; a queue with none left stays as it is.
    pub fn advance(&mut self)
        ensures
            final(self)@ == old(self)@.advanced(),
    {
        if self.current_index < self.birds.len() {
            self.current_index += 1;
        }
    }

    /// How many birds are left to hand out.
    pub fn get_remaining(&self) -> (n: usize)
        ensures
            n == self@.remaining(),
    {
        self.birds.len().saturating_sub(self.current_index)
    }

    /// Back to the first bird.
    pub fn reset(&mut self)
        ensures
            final(self)@ == (BirdQueueView { birds: old(self)@.birds, current_index: 0 }),
    {
        self.current_index = 0;
    }
}

/// A queue has a next bird exactly when birds remain, and handing one out
/// leaves one fewer; an exhausted queue stays exhausted.
pub proof fn lemma_queue_advance_consumes_one(q: BirdQueueView)
    requires
        q.current_index >= 0,
    ensures
        q.next() is Some <==> q.remaining() > 0,
        q.remaining() > 0 ==> q.advanced().remaining() == q.remaining() - 1,
        q.remaining() == 0 ==> q.advanced() == q,
{
}

/// A fresh queue hands its birds out in the level's order, each exactly once:
/// after `k` birds have gone, the next is the `k`-th of the list and
/// `len - k` remain; after all of them, none is left.
pub proof fn lemma_queue_hands_out_in_order(birds: Seq<BirdType>, k: nat)
    requires
        k <= birds.len(),
    ensures
        (BirdQueueView { birds, current_index: 0 }).advanced_by(k) == (BirdQueueView {
            birds,
            current_index: k as int,
        }),
        k < birds.len() ==> (BirdQueueView { birds, current_index: 0 }).advanced_by(k).next()
            == Some(birds[k as int]),
        (BirdQueueView { birds, current_index: 0 }).advanced_by(k).remaining() == birds.len() - k,
    decreases k,
{
    if k > 0 {
        lemma_queue_hands_out_in_order(birds, (k - 1) as nat);
    }
}

} // verus!
