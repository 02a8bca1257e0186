use vstd::prelude::*;

verus! {

/// The width of the playfield, in pixels.
pub const SCREEN_WIDTH: i32 = 800;

/// The height of the playfield, in pixels.
pub const SCREEN_HEIGHT: i32 = 600;

/// The most bullets in flight at once.
pub const MAX_BULLETS: usize = 20;

/// The most enemies on screen at once.
pub const MAX_ENEMIES: usize = 10;

/// The points for each enemy destroyed.
pub const POINTS_PER_ENEMY: i32 = 10;

/// The score it takes to climb one difficulty tier.
pub const POINTS_PER_TIER: i32 = 50;

/// The difficulty tier of a score: the score divided by 50, rounded toward
/// zero. Enemy speed grows and the spawn interval shrinks with the tier.
pub open spec fn tier_of(score: int) -> int {
    if score >= 0 {
        score / 50
    } else {
        -((-score) / 50)
    }
}

/// The difficulty tier of a score.
pub fn difficulty_tier(score: i32) -> (tier: i32)
    ensures
        tier == tier_of(score as int),
{
    score / POINTS_PER_TIER
}

/// Difficulty grows with the score: the tier never goes down as the score
/// rises, starts at 0, and goes up by one every 50 points.
pub proof fn lemma_difficulty_grows(score: int, higher: int)
    requires
        0 <= score <= higher,
    ensures
        tier_of(score) <= tier_of(higher),
        score < 50 ==> tier_of(score) == 0,
        tier_of(score + 50) == tier_of(score) + 1,
{
    assert(score / 50 <= higher / 50) by (nonlinear_arith)
        requires
            0 <= score <= higher,
    ;
    assert((score + 50) / 50 == score / 50 + 1) by (nonlinear_arith)
        requires
            0 <= score,
    ;
}

/// The column, in pixels, where a new enemy appears, from a seed taken from
/// the clock: at least 50 pixels from either side of the screen.
pub fn enemy_spawn_x(seed: u32) -> (x: u32)
    ensures
        x == seed % 700 + 50,
        50 <= x < 750,
{
    (seed % (SCREEN_WIDTH as u32 - 100)) + 50
}

/// Adds a bullet or an enemy to those on screen, unless `limit` of them are
/// already there; returns whether it was added. A collection within its
/// limit stays within it.
pub fn push_within_limit<T>(entities: &mut Vec<T>, entity: T, limit: usize) -> (added: bool)
    ensures
        added == (old(entities)@.len() < limit),
        added ==> final(entities)@ == old(entities)@.push(entity),
        !added ==> final(entities)@ == old(entities)@,
        old(entities)@.len() <= limit ==> final(entities)@.len() <= limit,
{
    if entities.len() < limit {
        entities.push(entity);
        true
    } else {
        false
    }
}

/// What a frame of the game does, once the keys of the frame are known.
#[derive(Clone, Copy, Debug, PartialEq, Eq, Structural)]
pub enum FrameAction {
    /// The player asked to go back to the menu.
    Quit,
    /// The game was over and the player restarted it.
    Restart,
    /// The game is over; nothing moves.
    Wait,
    /// The game goes on: move, shoot, spawn and collide.
    Play,
}

/// The discrete state of a game of Space Defender: the score and whether the
/// game is over or the player wants to leave.
///
/// The ship, bullets and enemies, which move by fractions of a pixel, are kept
/// by the front end.
#[derive(Clone, Copy, Debug, PartialEq, Eq, Structural)]
pub struct GameStatus {
    pub score: i32,
    pub game_over: bool,
    pub wants_to_quit: bool,
}

/// The state a game starts and restarts in.
pub open spec fn initial_status() -> GameStatus {
    GameStatus { score: 0, game_over: false, wants_to_quit: false }
}

/// How many flags of a sequence are set.
pub open spec fn count_set(s: Seq<bool>) -> nat
    decreases s.len(),
{
    if s.len() == 0 {
        0
    } else {
        count_set(s.drop_last()) + if s.last() {
            1nat
        } else {
            0nat
        }
    }
}

/// The first active enemy, from index `j` on, that the bullet overlaps; the
/// number of enemies if there is none.
pub open spec fn first_target(enemies: Seq<bool>, row: Seq<bool>, j: int) -> int
    decreases enemies.len() - j,
{
    if j < 0 || j >= enemies.len() {
        enemies.len() as int
    } else if enemies[j] && row[j] {
        j
    } else {
        first_target(enemies, row, j + 1)
    }
}

/// Which bullets and enemies are still active, and how many hits there were.
pub struct HitOutcome {
    pub bullets: Seq<bool>,
    pub enemies: Seq<bool>,
    pub hits: nat,
}

/// The outcome of checking the first `i` bullets, in order, against the
/// enemies: each active bullet destroys the first active enemy it overlaps,
/// and both are spent.
pub open spec fn hit_pass(bullets: Seq<bool>, enemies: Seq<bool>, overlaps: Seq<Seq<bool>>, i: int) -> HitOutcome
    decreases i,
{
    if i <= 0 {
        HitOutcome { bullets, enemies, hits: 0 }
    } else {
        let prev = hit_pass(bullets, enemies, overlaps, i - 1);
        let k = i - 1;
        let t = first_target(prev.enemies, overlaps[k], 0);
        if prev.bullets[k] && t < prev.enemies.len() {
            HitOutcome {
                bullets: prev.bullets.update(k, false),
                enemies: prev.enemies.update(t, false),
                hits: prev.hits + 1,
            }
        } else {
            prev
        }
    }
}

/// The overlap table of a frame, as sequences.
pub open spec fn overlap_rows(overlaps: Seq<Vec<bool>>) -> Seq<Seq<bool>> {
    overlaps.map_values(|r: Vec<bool>| r@)
}

/// Clearing a set flag lowers the count by one.
proof fn lemma_count_clear(s: Seq<bool>, j: int)
    requires
        0 <= j < s.len(),
        s[j],
    ensures
        count_set(s.update(j, false)) + 1 == count_set(s),
    decreases s.len(),
{
    let u = s.update(j, false);
    if j == s.len() - 1 {
        assert(u.drop_last() =~= s.drop_last());
    } else {
        lemma_count_clear(s.drop_last(), j);
        assert(u.drop_last() =~= s.drop_last().update(j, false));
    }
}

/// The first target, when there is one, is an active enemy that the bullet
/// overlaps.
proof fn lemma_first_target(enemies: Seq<bool>, row: Seq<bool>, j: int)
    requires
        0 <= j <= enemies.len(),
        row.len() == enemies.len(),
    ensures
        j <= first_target(enemies, row, j) <= enemies.len(),
        first_target(enemies, row, j) < enemies.len() ==> {
            let t = first_target(enemies, row, j);
            j <= t && enemies[t] && row[t]
        },
        forall|k: int|
            j <= k < first_target(enemies, row, j) ==> !(#[trigger] enemies[k] && row[k]),
    decreases enemies.len() - j,
{
    if j < enemies.len() && !(enemies[j] && row[j]) {
        lemma_first_target(enemies, row, j + 1);
    }
}

/// A bullet's target is the least-indexed active enemy that it touches: when
/// some active enemy touches it, the target is such an enemy and no active
/// enemy before it touches the bullet; when none does, there is no target.
pub proof fn lemma_first_target_is_least(enemies: Seq<bool>, row: Seq<bool>)
    requires
        row.len() == enemies.len(),
    ensures
        (exists|j: int| 0 <= j < enemies.len() && #[trigger] enemies[j] && row[j]) ==> {
            let t = first_target(enemies, row, 0);
            &&& 0 <= t < enemies.len()
            &&& enemies[t] && row[t]
            &&& forall|k: int| 0 <= k < t ==> !(#[trigger] enemies[k] && row[k])
        },
        (forall|j: int| 0 <= j < enemies.len() ==> !(#[trigger] enemies[j] && row[j]))
            ==> first_target(enemies, row, 0) == enemies.len(),
{
    lemma_first_target(enemies, row, 0);
    let t = first_target(enemies, row, 0);
    if exists|j: int| 0 <= j < enemies.len() && #[trigger] enemies[j] && row[j] {
        let j = choose|j: int| 0 <= j < enemies.len() && #[trigger] enemies[j] && row[j];
        if t >= enemies.len() {
            assert(!(enemies[j] && row[j]));
        }
    }
}

/// Resolving the shots never revives anything, leaves bullets not yet
/// checked as they were, and leaves no checked bullet still flying while it
/// touches an enemy still on screen: a bullet that touches an active enemy is
/// always spent.
pub proof fn lemma_hit_pass_leaves_no_contact(
    bullets: Seq<bool>,
    enemies: Seq<bool>,
    overlaps: Seq<Seq<bool>>,
    i: int,
)
    requires
        0 <= i <= bullets.len(),
        overlaps.len() == bullets.len(),
        forall|k: int| 0 <= k < overlaps.len() ==> #[trigger] overlaps[k].len() == enemies.len(),
    ensures
        ({
            let out = hit_pass(bullets, enemies, overlaps, i);
            &&& out.bullets.len() == bullets.len()
            &&& out.enemies.len() == enemies.len()
            &&& forall|k: int| 0 <= k < bullets.len() && #[trigger] out.bullets[k] ==> bullets[k]
            &&& forall|j: int| 0 <= j < enemies.len() && #[trigger] out.enemies[j] ==> enemies[j]
            &&& forall|k: int| i <= k < bullets.len() ==> #[trigger] out.bullets[k] == bullets[k]
            &&& forall|k: int, j: int|
                0 <= k < i && 0 <= j < enemies.len() && #[trigger] out.bullets[k]
                    && #[trigger] out.enemies[j] ==> !overlaps[k][j]
        }),
    decreases i,
{
    lemma_hit_pass(bullets, enemies, overlaps, i);
    if i > 0 {
        lemma_hit_pass_leaves_no_contact(bullets, enemies, overlaps, i - 1);
        let prev = hit_pass(bullets, enemies, overlaps, i - 1);
        let out = hit_pass(bullets, enemies, overlaps, i);
        let k = i - 1;
        lemma_hit_pass(bullets, enemies, overlaps, i - 1);
        lemma_first_target_is_least(prev.enemies, overlaps[k]);
        lemma_first_target(prev.enemies, overlaps[k], 0);
        let t = first_target(prev.enemies, overlaps[k], 0);
        assert forall|k2: int, j: int|
            0 <= k2 < i && 0 <= j < enemies.len() && #[trigger] out.bullets[k2]
                && #[trigger] out.enemies[j] implies !overlaps[k2][j] by {
            if k2 < k {
                assert(prev.bullets[k2]);
                assert(prev.enemies[j]);
            } else {
                assert(prev.bullets[k]);
                assert(!(prev.bullets[k] && t < prev.enemies.len()));
                assert(prev.enemies[j]);
                assert(!(prev.enemies[j] && overlaps[k][j]));
            }
        }
    }
}

/// Each hit spends exactly one bullet and one enemy; the lengths stay, and the
/// hits only grow as more bullets are checked.
proof fn lemma_hit_pass(bullets: Seq<bool>, enemies: Seq<bool>, overlaps: Seq<Seq<bool>>, i: int)
    requires
        0 <= i <= bullets.len(),
        overlaps.len() == bullets.len(),
        forall|k: int| 0 <= k < overlaps.len() ==> #[trigger] overlaps[k].len() == enemies.len(),
    ensures
        hit_pass(bullets, enemies, overlaps, i).bullets.len() == bullets.len(),
        hit_pass(bullets, enemies, overlaps, i).enemies.len() == enemies.len(),
        count_set(hit_pass(bullets, enemies, overlaps, i).bullets) + hit_pass(bullets, enemies, overlaps, i).hits
            == count_set(bullets),
        count_set(hit_pass(bullets, enemies, overlaps, i).enemies) + hit_pass(bullets, enemies, overlaps, i).hits
            == count_set(enemies),
    decreases i,
{
    if i > 0 {
        lemma_hit_pass(bullets, enemies, overlaps, i - 1);
        let prev = hit_pass(bullets, enemies, overlaps, i - 1);
        let k = i - 1;
        lemma_first_target(prev.enemies, overlaps[k], 0);
        let t = first_target(prev.enemies, overlaps[k], 0);
        if prev.bullets[k] && t < prev.enemies.len() {
            lemma_count_clear(prev.bullets, k);
            lemma_count_clear(prev.enemies, t);
        }
    }
}

/// No more flags are set than a sequence has.
proof fn lemma_count_at_most_len(s: Seq<bool>)
    ensures
        count_set(s) <= s.len(),
    decreases s.len(),
{
    if s.len() > 0 {
        lemma_count_at_most_len(s.drop_last());
    }
}

/// A frame scores at most one hit per active bullet, so never more hits than
/// bullets.
pub proof fn lemma_hits_at_most_bullets(bullets: Seq<bool>, enemies: Seq<bool>, overlaps: Seq<Seq<bool>>)
    requires
        overlaps.len() == bullets.len(),
        forall|k: int| 0 <= k < overlaps.len() ==> #[trigger] overlaps[k].len() == enemies.len(),
    ensures
        hit_pass(bullets, enemies, overlaps, bullets.len() as int).hits <= count_set(bullets),
        count_set(bullets) <= bullets.len(),
{
    lemma_hit_pass(bullets, enemies, overlaps, bullets.len() as int);
    lemma_count_at_most_len(bullets);
}

/// The hits never go down as more bullets are checked.
proof fn lemma_hits_grow(bullets: Seq<bool>, enemies: Seq<bool>, overlaps: Seq<Seq<bool>>, i: int, n: int)
    requires
        0 <= i <= n,
    ensures
        hit_pass(bullets, enemies, overlaps, i).hits <= hit_pass(bullets, enemies, overlaps, n).hits,
    decreases n - i,
{
    if i < n {
        lemma_hits_grow(bullets, enemies, overlaps, i, n - 1);
    }
}

impl GameStatus {
    /// A game at its start.
    pub fn new() -> (s: GameStatus)
        ensures
            s == initial_status(),
    {
        GameStatus { score: 0, game_over: false, wants_to_quit: false }
    }

    /// Back to the start: no score, not over, staying.
    pub fn reset(&mut self)
        ensures
            *final(self) == initial_status(),
    {
        self.score = 0;
        self.game_over = false;
        self.wants_to_quit = false;
    }

    /// Whether the game is over.
    pub fn is_game_over(&self) -> (b: bool)
        ensures
            b == self.game_over,
    {
        self.game_over
    }

    /// Whether the player asked to go back to the menu.
    pub fn wants_to_quit(&self) -> (b: bool)
        ensures
            b == self.wants_to_quit,
    {
        self.wants_to_quit
    }

    /// Starts a frame from the keys pressed in it.
    ///
    /// Escape asks to leave and nothing else happens. Otherwise, once the game
    /// is over, R restarts it and without R nothing happens; a game that is
    /// not over goes on.
    pub fn begin_frame(&mut self, escape_pressed: bool, restart_pressed: bool) -> (a: FrameAction)
        ensures
            escape_pressed ==> a == FrameAction::Quit && *final(self) == (GameStatus {
                wants_to_quit: true,
                ..*old(self)
            }),
            !escape_pressed && old(self).game_over && restart_pressed ==> a == FrameAction::Restart
                && *final(self) == initial_status(),
            !escape_pressed && old(self).game_over && !restart_pressed ==> a == FrameAction::Wait
                && *final(self) == *old(self),
            !escape_pressed && !old(self).game_over ==> a == FrameAction::Play && *final(self)
                == *old(self),
    {
        if escape_pressed {
            self.wants_to_quit = true;
            return FrameAction::Quit;
        }
        if self.game_over {
            if restart_pressed {
                self.reset();
                return FrameAction::Restart;
            }
            return FrameAction::Wait;
        }
        FrameAction::Play
    }

    /// Resolves the shots of a frame.
    ///
    /// `overlaps[i][j]` tells whether bullet `i` touches enemy `j` this frame.
    /// Bullets are checked in order; each active bullet destroys the first
    /// active enemy it touches, both are spent, and every destroyed enemy
    /// scores 10 points.
    pub fn resolve_hits(
        &mut self,
        bullets_active: &mut Vec<bool>,
        enemies_active: &mut Vec<bool>,
        overlaps: &Vec<Vec<bool>>,
    )
        requires
            overlaps@.len() == old(bullets_active)@.len(),
            forall|i: int|
                0 <= i < overlaps@.len() ==> #[trigger] overlaps@[i]@.len()
                    == old(enemies_active)@.len(),
            old(self).score + POINTS_PER_ENEMY * hit_pass(
                old(bullets_active)@,
                old(enemies_active)@,
                overlap_rows(overlaps@),
                old(bullets_active)@.len() as int,
            ).hits <= i32::MAX,
        ensures
            ({
                let outcome = hit_pass(
                    old(bullets_active)@,
                    old(enemies_active)@,
                    overlap_rows(overlaps@),
                    old(bullets_active)@.len() as int,
                );
                &&& final(bullets_active)@ == outcome.bullets
                &&& final(enemies_active)@ == outcome.enemies
                &&& final(self).score == old(self).score + POINTS_PER_ENEMY * outcome.hits
            }),
            final(self).game_over == old(self).game_over,
            final(self).wants_to_quit == old(self).wants_to_quit,
            final(self).score == old(self).score + POINTS_PER_ENEMY * (count_set(
                old(enemies_active)@,
            ) - count_set(final(enemies_active)@)),
            count_set(old(bullets_active)@) - count_set(final(bullets_active)@) == count_set(
                old(enemies_active)@,
            ) - count_set(final(enemies_active)@),
            forall|i: int| 0 <= i < old(bullets_active)@.len() && #[trigger] final(bullets_active)@[i]
                ==> old(bullets_active)@[i],
            forall|j: int| 0 <= j < old(enemies_active)@.len() && #[trigger] final(enemies_active)@[j]
                ==> old(enemies_active)@[j],
            forall|i: int, j: int|
                0 <= i < old(bullets_active)@.len() && 0 <= j < old(enemies_active)@.len()
                    && #[trigger] final(bullets_active)@[i] && #[trigger] final(enemies_active)@[j]
                    ==> !overlaps@[i]@[j],
    {
        let ghost b0 = bullets_active@;
        let ghost e0 = enemies_active@;
        let ghost rows = overlap_rows(overlaps@);
        let ghost score0 = self.score as int;
        let n = bullets_active.len();
        let m = enemies_active.len();
        proof {
            assert forall|k: int| 0 <= k < rows.len() implies #[trigger] rows[k].len() == e0.len() by {
                assert(rows[k] == overlaps@[k]@);
            }
            lemma_hit_pass(b0, e0, rows, n as int);
        }
        for i in 0..n
            invariant
                n == b0.len(),
                m == e0.len(),
                rows == overlap_rows(overlaps@),
                overlaps@.len() == n,
                forall|k: int| 0 <= k < n ==> #[trigger] overlaps@[k]@.len() == m,
                forall|k: int| 0 <= k < rows.len() ==> #[trigger] rows[k].len() == e0.len(),
                bullets_active@ == hit_pass(b0, e0, rows, i as int).bullets,
                enemies_active@ == hit_pass(b0, e0, rows, i as int).enemies,
                self.score == score0 + POINTS_PER_ENEMY * hit_pass(b0, e0, rows, i as int).hits,
                score0 + POINTS_PER_ENEMY * hit_pass(b0, e0, rows, n as int).hits <= i32::MAX,
                self.game_over == old(self).game_over,
                self.wants_to_quit == old(self).wants_to_quit,
        {
            let ghost prev = hit_pass(b0, e0, rows, i as int);
            let ghost row = rows[i as int];
            proof {
                lemma_hit_pass(b0, e0, rows, i as int);
                lemma_hits_grow(b0, e0, rows, i + 1, n as int);
                assert(row == overlaps@[i as int]@);
                lemma_first_target(prev.enemies, row, 0);
            }
            for j in 0..m
                invariant
                    n == b0.len(),
                    m == e0.len(),
                    0 <= i < n,
                    overlaps@.len() == n,
                    overlaps@[i as int]@ == row,
                    row.len() == m,
                    prev == hit_pass(b0, e0, rows, i as int),
                    prev.bullets.len() == n,
                    prev.enemies.len() == m,
                    0 <= first_target(prev.enemies, row, 0) <= m,
                    score0 + POINTS_PER_ENEMY * (prev.hits + 1) <= i32::MAX || !(prev.bullets[i as int]
                        && first_target(prev.enemies, row, 0) < m),
                    self.game_over == old(self).game_over,
                    self.wants_to_quit == old(self).wants_to_quit,
                    ({
                        let t = first_target(prev.enemies, row, 0);
                        if prev.bullets[i as int] && t < j {
                            &&& t < m
                            &&& bullets_active@ == prev.bullets.update(i as int, false)
                            &&& enemies_active@ == prev.enemies.update(t, false)
                            &&& self.score == score0 + POINTS_PER_ENEMY * (prev.hits + 1)
                        } else {
                            &&& bullets_active@ == prev.bullets
                            &&& enemies_active@ == prev.enemies
                            &&& self.score == score0 + POINTS_PER_ENEMY * prev.hits
                            &&& (prev.bullets[i as int] ==> first_target(prev.enemies, row, j as int)
                                == t)
                        }
                    }),
            {
                proof {
                    lemma_first_target(prev.enemies, row, j + 1);
                }
                if bullets_active[i] && enemies_active[j] {
                    if overlaps[i][j] {
                        bullets_active.set(i, false);
                        enemies_active.set(j, false);
                        self.score = self.score + POINTS_PER_ENEMY;
                    }
                }
            }
        }
        proof {
            lemma_hit_pass(b0, e0, rows, n as int);
            lemma_hit_pass_leaves_no_contact(b0, e0, rows, n as int);
            assert forall|i: int, j: int|
                0 <= i < n && 0 <= j < m && #[trigger] bullets_active@[i]
                    && #[trigger] enemies_active@[j] implies !overlaps@[i]@[j] by {
                assert(rows[i] == overlaps@[i]@);
            }
        }
    }

    /// Ends the game when an active enemy touches the ship or gets past the
    /// bottom of the screen.
    ///
    /// For each enemy, `hits_player` tells whether it touches the ship and
    /// `past_bottom` whether it is more than 20 pixels below the screen.
    pub fn check_defeat(&mut self, enemies_active: &Vec<bool>, hits_player: &Vec<bool>, past_bottom: &Vec<bool>)
        requires
            hits_player@.len() == enemies_active@.len(),
            past_bottom@.len() == enemies_active@.len(),
        ensures
            final(self).score == old(self).score,
            final(self).wants_to_quit == old(self).wants_to_quit,
            final(self).game_over == (old(self).game_over || exists|i: int|
                0 <= i < enemies_active@.len() && #[trigger] enemies_active@[i] && (hits_player@[i]
                    || past_bottom@[i])),
    {
        let ghost over0 = self.game_over;
        for i in 0..enemies_active.len()
            invariant
                hits_player@.len() == enemies_active@.len(),
                past_bottom@.len() == enemies_active@.len(),
                self.score == old(self).score,
                self.wants_to_quit == old(self).wants_to_quit,
                over0 == old(self).game_over,
                self.game_over == (over0 || exists|k: int|
                    0 <= k < i && #[trigger] enemies_active@[k] && (hits_player@[k]
                        || past_bottom@[k])),
        {
            if enemies_active[i] {
                if hits_player[i] {
                    self.game_over = true;
                }
                if past_bottom[i] {
                    self.game_over = true;
                }
            }
        }
    }
}

/// A game starts, and restarts, with no score, not over and not quitting.
pub proof fn lemma_initial_status()
    ensures
        initial_status().score == 0,
        !initial_status().game_over,
        !initial_status().wants_to_quit,
{
}

} // verus!
