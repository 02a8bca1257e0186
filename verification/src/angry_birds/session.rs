use vstd::prelude::*;

use crate::angry_birds::bird::{
    ability_offspring, bird_ability, can_use_ability, Bird, BirdAbility, BirdQueue, BirdQueueView,
    BirdType,
};
use crate::angry_birds::level::{level_layout, LevelData, LevelLayout, LevelManager, LEVEL_COUNT};
use crate::angry_birds::rules::{
    all_destroyed, calculate_stars, check_game_state, has_flying_bird, spawn_next_bird, stars_for,
    BLOCK_POINTS, PIG_POINTS,
};

verus! {

/// Whether the player is aiming the next bird or watching the last one fly.
#[derive(Clone, Copy, Debug, PartialEq, Eq, Structural)]
pub enum GameState {
    Aiming,
    Flying,
}

/// What settling the scene decided.
#[derive(Clone, Copy, Debug, PartialEq, Eq, Structural)]
pub enum SettleOutcome {
    /// The level is complete or the game is over; the rest of the frame is
    /// skipped.
    LevelDecided,
    /// Play goes on. `reset_slingshot` tells whether a bird is waiting, in
    /// which case the slingshot goes back to rest; `aiming_again` whether a
    /// bird is held, in which case aiming resumes and the settle timer
    /// restarts.
    Continue { reset_slingshot: bool, aiming_again: bool },
}

/// The discrete state of a game of Angry Birds: the levels, the birds of the
/// current level, the score and how the level stands.
///
/// `H` is the front end's handle for the physics body of the bird held in the
/// slingshot; the bodies themselves, and the blocks and pigs, which move by
/// fractions of a pixel, are kept by the front end.
pub struct Session<H> {
    pub level_manager: LevelManager,
    pub bird_queue: Option<BirdQueue>,
    pub birds: Vec<Bird>,
    pub current_bird_handle: Option<H>,
    pub game_state: GameState,
    pub score: i32,
    pub total_birds_used: i32,
    pub waiting_for_settle: bool,
    pub all_pigs_destroyed: bool,
    pub level_complete: bool,
    pub game_over: bool,
}

/// The mathematical value of a session.
#[verifier::ext_equal]
pub struct SessionView<H> {
    pub levels: Seq<LevelLayout>,
    pub current_level: int,
    pub queue: Option<BirdQueueView>,
    pub birds: Seq<Bird>,
    pub current_bird_handle: Option<H>,
    pub game_state: GameState,
    pub score: int,
    pub total_birds_used: int,
    pub waiting_for_settle: bool,
    pub all_pigs_destroyed: bool,
    pub level_complete: bool,
    pub game_over: bool,
}

/// The layouts of a manager's levels.
pub open spec fn layouts(m: LevelManager) -> Seq<LevelLayout> {
    m.levels@.map_values(|l: LevelData| l@)
}

/// A queue at the start of the given birds.
pub open spec fn fresh_queue(birds: Seq<BirdType>) -> BirdQueueView {
    BirdQueueView { birds, current_index: 0 }
}

impl<H> View for Session<H> {
    type V = SessionView<H>;

    open spec fn view(&self) -> SessionView<H> {
        SessionView {
            levels: layouts(self.level_manager),
            current_level: self.level_manager.current_level as int,
            queue: match self.bird_queue {
                Some(q) => Some(q@),
                None => None,
            },
            birds: self.birds@,
            current_bird_handle: self.current_bird_handle,
            game_state: self.game_state,
            score: self.score as int,
            total_birds_used: self.total_birds_used as int,
            waiting_for_settle: self.waiting_for_settle,
            all_pigs_destroyed: self.all_pigs_destroyed,
            level_complete: self.level_complete,
            game_over: self.game_over,
        }
    }
}

impl<H> SessionView<H> {
    /// The queue of birds, or an empty one.
    pub open spec fn queue_view(self) -> BirdQueueView {
        match self.queue {
            Some(q) => q,
            None => fresh_queue(Seq::empty()),
        }
    }

    /// The birds the current level hands out.
    pub open spec fn level_birds(self) -> Seq<BirdType> {
        self.levels[self.current_level].birds
    }

    /// A session is well formed when it points at one of its levels, every
    /// level hands out a countable number of birds, the queue holds the
    /// current level's birds, the birds used are those the queue has handed
    /// out, and a bird is held only while the queue has one to give.
    pub open spec fn well_formed(self) -> bool {
        &&& 0 <= self.current_level < self.levels.len()
        &&& forall|i: int| 0 <= i < self.levels.len() ==> #[trigger] self.levels[i].birds.len() <= i32::MAX
        &&& self.queue is Some
        &&& self.queue_view().birds == self.level_birds()
        &&& 0 <= self.queue_view().current_index <= self.queue_view().birds.len()
        &&& self.total_birds_used == self.queue_view().current_index
        &&& self.current_bird_handle is Some ==> self.queue_view().next() is Some
    }

    /// The session with level `n` (counted from 0) freshly loaded: its birds
    /// queued, none in play.
    pub open spec fn with_level_loaded(self, n: int) -> SessionView<H> {
        SessionView {
            current_level: n,
            queue: Some(fresh_queue(self.levels[n].birds)),
            birds: Seq::empty(),
            ..self
        }
    }
}

impl<H> Session<H> {
    /// Clears the birds in play and queues those of the current level.
    fn load_level(&mut self)
        requires
            old(self).level_manager.current_level < old(self).level_manager.levels@.len(),
        ensures
            final(self)@ == old(self)@.with_level_loaded(old(self)@.current_level),
    {
        self.birds.clear();
        let level = self.level_manager.get_current_level();
        let mut queued: Vec<BirdType> = Vec::new();
        for i in 0..level.birds.len()
            invariant
                queued@ == level.birds@.subrange(0, i as int),
        {
            queued.push(level.birds[i]);
        }
        assert(queued@ =~= level.birds@);
        self.bird_queue = Some(BirdQueue::new(queued));
        proof {
            assert(self.level_manager.levels@[self.level_manager.current_level as int]@ == layouts(
                self.level_manager,
            )[self.level_manager.current_level as int]);
        }
    }

    /// A session at the first of the game's levels.
    pub fn new() -> (s: Self)
        ensures
            s@.well_formed(),
            s@.current_level == 0,
            s@.levels.len() == LEVEL_COUNT,
            forall|i: int| 0 <= i < LEVEL_COUNT ==> #[trigger] s@.levels[i] == level_layout(i + 1),
            s@.queue == Some(fresh_queue(level_layout(1).birds)),
            s@.birds == Seq::<Bird>::empty(),
            s@.current_bird_handle is None,
            s@.game_state == GameState::Aiming,
            s@.score == 0,
            s@.total_birds_used == 0,
            !s@.waiting_for_settle,
            !s@.all_pigs_destroyed,
            !s@.level_complete,
            !s@.game_over,
    {
        let mut s = Session {
            level_manager: LevelManager::new(),
            bird_queue: None,
            birds: Vec::new(),
            current_bird_handle: None,
            game_state: GameState::Aiming,
            score: 0,
            total_birds_used: 0,
            waiting_for_settle: false,
            all_pigs_destroyed: false,
            level_complete: false,
            game_over: false,
        };
        let ghost lm = s.level_manager;
        proof {
            assert forall|i: int| 0 <= i < LEVEL_COUNT implies #[trigger] layouts(lm)[i] == level_layout(i + 1) by {
                assert(layouts(lm)[i] == lm.levels@[i]@);
            }
            assert forall|i: int| 0 <= i < layouts(lm).len() implies #[trigger] layouts(lm)[i].birds.len() <= i32::MAX by {
                assert(layouts(lm)[i] == level_layout(i + 1));
            }
        }
        s.load_level();
        s
    }

    /// Starts the game over from the first level: no score, no birds used,
    /// nothing decided. Whether the player was aiming or watching is kept.
    pub fn restart(&mut self)
        requires
            old(self)@.well_formed(),
        ensures
            final(self)@.well_formed(),
            final(self)@ == (SessionView {
                current_bird_handle: None,
                score: 0,
                total_birds_used: 0,
                waiting_for_settle: false,
                all_pigs_destroyed: false,
                level_complete: false,
                game_over: false,
                ..old(self)@
            }).with_level_loaded(0),
    {
        self.level_manager.reset();
        self.bird_queue = None;
        self.birds.clear();
        self.current_bird_handle = None;
        self.score = 0;
        self.total_birds_used = 0;
        self.waiting_for_settle = false;
        self.all_pigs_destroyed = false;
        self.level_complete = false;
        self.game_over = false;
        self.load_level();
    }

    /// Moves on to the next level, when the current one is not the last.
    ///
    /// Returns whether it moved. Moving keeps the score, loads the next
    /// level's birds and starts aiming with nothing decided and no bird used.
    pub fn advance_level(&mut self) -> (moved: bool)
        requires
            old(self)@.well_formed(),
        ensures
            final(self)@.well_formed(),
            moved == (old(self)@.current_level + 1 < old(self)@.levels.len()),
            moved ==> final(self)@ == (SessionView {
                current_bird_handle: None,
                game_state: GameState::Aiming,
                waiting_for_settle: false,
                all_pigs_destroyed: false,
                level_complete: false,
                total_birds_used: 0,
                ..old(self)@
            }).with_level_loaded(old(self)@.current_level + 1),
            !moved ==> final(self)@ == old(self)@,
    {
        let count = self.level_manager.levels.len();
        if self.level_manager.get_level_number() < count {
            self.level_manager.next_level();
            self.load_level();
            self.current_bird_handle = None;
            self.game_state = GameState::Aiming;
            self.waiting_for_settle = false;
            self.all_pigs_destroyed = false;
            self.level_complete = false;
            self.total_birds_used = 0;
            true
        } else {
            false
        }
    }

    /// The stars the current level earns with the birds used so far.
    pub fn stars(&self) -> (stars: i32)
        requires
            self@.well_formed(),
        ensures
            stars == stars_for(self@.total_birds_used, self@.level_birds().len() as int),
            1 <= stars <= 3,
    {
        let total = self.level_manager.get_current_level().birds.len() as i32;
        proof {
            assert(self.level_manager.levels@[self.level_manager.current_level as int]@ == self@.levels[self@.current_level]);
        }
        calculate_stars(self.total_birds_used, total)
    }

    /// The kind of the next bird to hand out, if any is left.
    pub fn next_bird_type(&self) -> (t: Option<BirdType>)
        requires
            self@.well_formed(),
        ensures
            t == self@.queue_view().next(),
    {
        match &self.bird_queue {
            Some(q) => q.get_next(),
            None => None,
        }
    }

    /// Puts the next bird in the slingshot, with the handle of the body made
    /// for it.
    pub fn hold_bird(&mut self, handle: H)
        requires
            old(self)@.well_formed(),
            old(self)@.current_bird_handle is None,
            old(self)@.queue_view().next() is Some,
        ensures
            final(self)@.well_formed(),
            final(self)@ == (SessionView {
                current_bird_handle: Some(handle),
                birds: old(self)@.birds.push(Bird::spec_new(old(self)@.queue_view().next()->0)),
                ..old(self)@
            }),
    {
        let bird_type = self.next_bird_type();
        match bird_type {
            Some(t) => {
                self.current_bird_handle = Some(handle);
                self.birds.push(Bird::new(t));
            },
            None => {},
        }
    }

    /// Launches the held bird: the last bird in play is marked launched, the
    /// queue moves on, one more bird counts as used, and the bird flies.
    pub fn launch(&mut self)
        requires
            old(self)@.well_formed(),
            old(self)@.current_bird_handle is Some,
        ensures
            final(self)@.well_formed(),
            final(self)@ == (SessionView {
                birds: if old(self)@.birds.len() > 0 {
                    old(self)@.birds.update(
                        old(self)@.birds.len() - 1,
                        Bird { launched: true, ..old(self)@.birds.last() },
                    )
                } else {
                    old(self)@.birds
                },
                queue: Some(old(self)@.queue_view().advanced()),
                total_birds_used: old(self)@.total_birds_used + 1,
                current_bird_handle: None,
                game_state: GameState::Flying,
                waiting_for_settle: false,
                ..old(self)@
            }),
    {
        let n = self.birds.len();
        if n > 0 {
            let mut last = self.birds[n - 1];
            last.launched = true;
            self.birds.set(n - 1, last);
        }
        match &mut self.bird_queue {
            Some(q) => q.advance(),
            None => {},
        }
        self.total_birds_used = self.total_birds_used + 1;
        self.current_bird_handle = None;
        self.game_state = GameState::Flying;
        self.waiting_for_settle = false;
    }

    /// Triggers the ability of the first launched bird still in play with its
    /// ability unused.
    ///
    /// Returns that bird's index and the ability to carry out; with no such
    /// bird, nothing changes and `None` comes back.
    pub fn trigger_ability(&mut self) -> (r: Option<(usize, BirdAbility)>)
        requires
            old(self)@.well_formed(),
        ensures
            final(self)@.well_formed(),
            match r {
                Some((i, a)) => {
                    &&& i < old(self)@.birds.len()
                    &&& can_use_ability(old(self)@.birds[i as int])
                    &&& forall|k: int| 0 <= k < i ==> !can_use_ability(#[trigger] old(self)@.birds[k])
                    &&& a == bird_ability(old(self)@.birds[i as int].bird_type)
                    &&& final(self)@ == (SessionView {
                        birds: old(self)@.birds.update(
                            i as int,
                            Bird { ability_triggered: true, ..old(self)@.birds[i as int] },
                        ),
                        ..old(self)@
                    })
                },
                None => {
                    &&& forall|k: int| 0 <= k < old(self)@.birds.len() ==> !can_use_ability(#[trigger] old(self)@.birds[k])
                    &&& final(self)@ == old(self)@
                },
            },
            r matches Some((i, a)) ==> {
                let b = old(self)@.birds[i as int];
                &&& b.launched && b.active && !b.ability_triggered
                &&& forall|k: int|
                    0 <= k < i ==> !(#[trigger] old(self)@.birds[k].launched
                        && old(self)@.birds[k].active && !old(self)@.birds[k].ability_triggered)
            },
            r is None ==> forall|k: int|
                0 <= k < old(self)@.birds.len() ==> !(#[trigger] old(self)@.birds[k].launched
                    && old(self)@.birds[k].active && !old(self)@.birds[k].ability_triggered),
    {
        proof {
            assert forall|b: Bird| can_use_ability(b) <==> (b.launched && b.active && !b.ability_triggered) by {
                crate::angry_birds::bird::lemma_ability_needs_launch(b);
            }
        }
        let n = self.birds.len();
        for i in 0..n
            invariant
                n == self.birds@.len(),
                old(self)@.well_formed(),
                self@ == old(self)@,
                forall|k: int| 0 <= k < i ==> !can_use_ability(#[trigger] self.birds@[k]),
        {
            let b = self.birds[i];
            if b.launched && !b.ability_triggered && b.active {
                let mut bird = b;
                let ability = bird.use_ability();
                self.birds.set(i, bird);
                match ability {
                    Some(a) => {
                        return Some((i, a));
                    },
                    None => {
                        return None;
                    },
                }
            }
        }
        None
    }

    /// Adds the birds that an ability brings into the scene: three small blue
    /// birds for a split, two eggs for a white bird, none otherwise.
    pub fn add_offspring(&mut self, ability: BirdAbility)
        requires
            old(self)@.well_formed(),
        ensures
            final(self)@.well_formed(),
            final(self)@ == (SessionView {
                birds: match ability_offspring(ability) {
                    Some((t, n)) => old(self)@.birds + Seq::new(n as nat, |k: int| Bird::spec_new(t)),
                    None => old(self)@.birds,
                },
                ..old(self)@
            }),
    {
        match ability.offspring() {
            Some((t, n)) => {
                let ghost start = self.birds@;
                let mut k: u32 = 0;
                while k < n
                    invariant
                        0 <= k <= n,
                        self@ == (SessionView {
                            birds: start + Seq::new(k as nat, |j: int| Bird::spec_new(t)),
                            ..old(self)@
                        }),
                    decreases n - k,
                {
                    self.birds.push(Bird::new(t));
                    k = k + 1;
                    proof {
                        assert(start + Seq::new(k as nat, |j: int| Bird::spec_new(t)) =~= (start
                            + Seq::new((k - 1) as nat, |j: int| Bird::spec_new(t))).push(
                            Bird::spec_new(t),
                        ));
                    }
                }
            },
            None => {},
        }
    }

    /// Decides what follows once the scene has settled after a shot.
    ///
    /// `pigs_destroyed` tells, for each pig of the level, whether it has been
    /// knocked out. When every pig is, the level is complete; when no launched
    /// bird is left in play with its ability unused, the game is over. Either
    /// way the level is decided. Otherwise, if a bird is held, aiming resumes;
    /// if none is, the game is over.
    pub fn settle(&mut self, pigs_destroyed: &[bool]) -> (outcome: SettleOutcome)
        requires
            old(self)@.well_formed(),
        ensures
            final(self)@.well_formed(),
            ({
                let all = all_destroyed(pigs_destroyed@);
                let decided = SessionView {
                    all_pigs_destroyed: all,
                    level_complete: old(self)@.level_complete || all,
                    game_over: old(self)@.game_over || (!all && !has_flying_bird(old(self)@.birds)),
                    ..old(self)@
                };
                let ready = old(self)@.queue_view().next() is Some;
                if decided.level_complete || decided.game_over {
                    &&& outcome == SettleOutcome::LevelDecided
                    &&& final(self)@ == decided
                } else if ready && old(self)@.current_bird_handle is Some {
                    &&& outcome == (SettleOutcome::Continue { reset_slingshot: true, aiming_again: true })
                    &&& final(self)@ == (SessionView {
                        game_state: GameState::Aiming,
                        waiting_for_settle: false,
                        ..decided
                    })
                } else {
                    &&& outcome == (SettleOutcome::Continue { reset_slingshot: ready, aiming_again: false })
                    &&& final(self)@ == (SessionView {
                        current_bird_handle: None,
                        game_over: true,
                        ..decided
                    })
                }
            }),
    {
        let mut all = self.all_pigs_destroyed;
        let mut complete = self.level_complete;
        let mut over = self.game_over;
        check_game_state(self.birds.as_slice(), pigs_destroyed, &mut all, &mut complete, &mut over);
        self.all_pigs_destroyed = all;
        self.level_complete = complete;
        self.game_over = over;
        if self.level_complete || self.game_over {
            return SettleOutcome::LevelDecided;
        }
        let ready = spawn_next_bird(&self.bird_queue, &mut self.current_bird_handle);
        if self.current_bird_handle.is_some() {
            self.game_state = GameState::Aiming;
            self.waiting_for_settle = false;
            SettleOutcome::Continue { reset_slingshot: ready, aiming_again: true }
        } else {
            self.game_over = true;
            SettleOutcome::Continue { reset_slingshot: ready, aiming_again: false }
        }
    }

    /// Scores a block knocked down.
    pub fn knock_down_block(&mut self)
        requires
            old(self).score + BLOCK_POINTS <= i32::MAX,
        ensures
            final(self)@ == (SessionView { score: old(self)@.score + BLOCK_POINTS, ..old(self)@ }),
    {
        self.score = self.score + BLOCK_POINTS;
    }

    /// Scores a pig knocked out.
    pub fn knock_out_pig(&mut self)
        requires
            old(self).score + PIG_POINTS <= i32::MAX,
        ensures
            final(self)@ == (SessionView { score: old(self)@.score + PIG_POINTS, ..old(self)@ }),
    {
        self.score = self.score + PIG_POINTS;
    }
}

/// The birds used are the birds the queue has handed out: never more than
/// the level gives, with the rest still to come.
pub proof fn lemma_birds_used_bounded<H>(s: SessionView<H>)
    requires
        s.well_formed(),
    ensures
        0 <= s.total_birds_used <= s.level_birds().len(),
        s.queue_view().remaining() == s.level_birds().len() - s.total_birds_used,
{
}

/// Loading a level leaves no bird in play and queues that level's birds from
/// the first: all of them remain, the first is next, and none is used.
pub proof fn lemma_level_loaded<H>(s: SessionView<H>, n: int)
    requires
        0 <= n < s.levels.len(),
    ensures
        ({
            let t = s.with_level_loaded(n);
            &&& t.birds.len() == 0
            &&& t.current_level == n
            &&& t.levels == s.levels
            &&& t.queue_view().birds == s.levels[n].birds
            &&& t.queue_view().current_index == 0
            &&& t.queue_view().remaining() == s.levels[n].birds.len()
            &&& s.levels[n].birds.len() > 0 ==> t.queue_view().next() == Some(s.levels[n].birds[0])
        }),
{
}

} // verus!
