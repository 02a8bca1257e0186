use vstd::prelude::*;

use crate::angry_birds::bird::{Bird, BirdQueue};

verus! {

/// Points for each block knocked down.
pub const BLOCK_POINTS: i32 = 10;

/// Points for each pig knocked out.
pub const PIG_POINTS: i32 = 50;

/// The stars a completed level earns, from the birds used and the birds the
/// level handed out.
pub open spec fn stars_for(birds_used: int, total_birds: int) -> int {
    let birds_saved = total_birds - birds_used;
    if birds_saved >= total_birds - 2 {
        3
    } else if birds_saved >= total_birds - 3 {
        2
    } else {
        1
    }
}

/// The stars a completed level earns.
pub fn calculate_stars(birds_used: i32, total_birds: i32) -> (stars: i32)
    requires
        i32::MIN <= total_birds - birds_used <= i32::MAX,
        total_birds - 3 >= i32::MIN,
    ensures
        stars == stars_for(birds_used as int, total_birds as int),
{
    let birds_saved = total_birds - birds_used;
    if birds_saved >= total_birds - 2 {
        3
    } else if birds_saved >= total_birds - 3 {
        2
    } else {
        1
    }
}

/// Stars go by the birds used alone: three for at most two birds, two for
/// three birds, one otherwise. So a level always earns one to three stars, and
/// using more birds never earns more.
pub proof fn lemma_stars_by_birds_used(birds_used: int, more_birds_used: int, total_birds: int)
    requires
        birds_used <= more_birds_used,
    ensures
        stars_for(birds_used, total_birds) == (if birds_used <= 2 {
            3int
        } else if birds_used == 3 {
            2int
        } else {
            1int
        }),
        1 <= stars_for(birds_used, total_birds) <= 3,
        stars_for(more_birds_used, total_birds) <= stars_for(birds_used, total_birds),
{
}

/// Whether every pig has been knocked out.
pub open spec fn all_destroyed(pigs_destroyed: Seq<bool>) -> bool {
    forall|i: int| 0 <= i < pigs_destroyed.len() ==> #[trigger] pigs_destroyed[i]
}

/// Whether some launched bird is still in play with its ability unused.
pub open spec fn has_flying_bird(birds: Seq<Bird>) -> bool {
    exists|i: int|
        0 <= i < birds.len() && #[trigger] birds[i].launched && birds[i].active
            && !birds[i].ability_triggered
}

/// The level counts as cleared exactly when no pig is left standing: one pig
/// still standing, wherever it is, keeps it open.
pub proof fn lemma_pigs_standing(pigs_destroyed: Seq<bool>)
    ensures
        (exists|i: int| 0 <= i < pigs_destroyed.len() && !#[trigger] pigs_destroyed[i])
            ==> !all_destroyed(pigs_destroyed),
        (forall|i: int| 0 <= i < pigs_destroyed.len() ==> #[trigger] pigs_destroyed[i])
            ==> all_destroyed(pigs_destroyed),
{
}

/// A bird is still flying exactly when one of them is launched, in play and
/// has its ability unused, wherever it stands in the list.
pub proof fn lemma_flying_birds(birds: Seq<Bird>)
    ensures
        (exists|k: int|
            0 <= k < birds.len() && #[trigger] birds[k].launched && birds[k].active
                && !birds[k].ability_triggered) ==> has_flying_bird(birds),
        (forall|k: int|
            0 <= k < birds.len() ==> !(#[trigger] birds[k].launched && birds[k].active
                && !birds[k].ability_triggered)) ==> !has_flying_bird(birds),
{
}

/// Decides, once the scene has settled, whether the level is won or lost.
///
/// `pigs_destroyed` tells, for each pig of the level, whether it has been
/// knocked out. The level is complete when every pig is; otherwise the game is
/// over when no launched bird is left in play with its ability unused.
pub fn check_game_state(
    birds: &[Bird],
    pigs_destroyed: &[bool],
    all_pigs_destroyed: &mut bool,
    level_complete: &mut bool,
    game_over: &mut bool,
)
    ensures
        *final(all_pigs_destroyed) == all_destroyed(pigs_destroyed@),
        all_destroyed(pigs_destroyed@) ==> *final(level_complete) && *final(game_over)
            == *old(game_over),
        !all_destroyed(pigs_destroyed@) ==> *final(level_complete) == *old(level_complete)
            && *final(game_over) == (*old(game_over) || !has_flying_bird(birds@)),
        (exists|i: int| 0 <= i < pigs_destroyed@.len() && !#[trigger] pigs_destroyed@[i]) ==> {
            &&& !*final(all_pigs_destroyed)
            &&& *final(level_complete) == *old(level_complete)
        },
        (forall|i: int| 0 <= i < pigs_destroyed@.len() ==> #[trigger] pigs_destroyed@[i]) ==> {
            &&& *final(all_pigs_destroyed)
            &&& *final(level_complete)
            &&& *final(game_over) == *old(game_over)
        },
        (exists|k: int|
            0 <= k < birds@.len() && #[trigger] birds@[k].launched && birds@[k].active
                && !birds@[k].ability_triggered) ==> *final(game_over) == *old(game_over),
        (exists|i: int| 0 <= i < pigs_destroyed@.len() && !#[trigger] pigs_destroyed@[i]) && (forall|k: int|
            0 <= k < birds@.len() ==> !(#[trigger] birds@[k].launched && birds@[k].active
                && !birds@[k].ability_triggered)) ==> *final(game_over),
{
    proof {
        lemma_pigs_standing(pigs_destroyed@);
        lemma_flying_birds(birds@);
    }
    let mut all = true;
    let mut remaining_pigs: usize = 0;
    for i in 0..pigs_destroyed.len()
        invariant
            remaining_pigs <= i,
            all == (forall|j: int| 0 <= j < i ==> #[trigger] pigs_destroyed@[j]),
            all == (remaining_pigs == 0),
    {
        if !pigs_destroyed[i] {
            all = false;
            remaining_pigs += 1;
        }
    }
    *all_pigs_destroyed = all;

    if all {
        *level_complete = true;
    } else {
        let mut has_active_bird = false;
        for i in 0..birds.len()
            invariant
                has_active_bird == (exists|j: int|
                    0 <= j < i && #[trigger] birds@[j].launched && birds@[j].active
                        && !birds@[j].ability_triggered),
        {
            if birds[i].launched && birds[i].active && !birds[i].ability_triggered {
                has_active_bird = true;
            }
        }
        if !has_active_bird {
            if remaining_pigs > 0 {
                *game_over = true;
            }
        }
    }
}

/// Gets the slingshot ready for the next bird, if the queue has one.
///
/// Returns whether a bird is waiting, in which case the front end puts the
/// slingshot back at rest and the held handle is kept; otherwise the held
/// handle is cleared.
pub fn spawn_next_bird<H>(bird_queue: &Option<BirdQueue>, current_bird_handle: &mut Option<H>) -> (ready: bool)
    ensures
        ready == (bird_queue matches Some(q) && q@.next() is Some),
        ready ==> *final(current_bird_handle) == *old(current_bird_handle),
        !ready ==> *final(current_bird_handle) is None,
{
    if let Some(queue) = bird_queue {
        if queue.get_next().is_some() {
            return true;
        }
    }
    *current_bird_handle = None;
    false
}

/// A bird's ability works once: after it has been triggered, the bird can no
/// longer trigger it, whatever its kind.
pub proof fn lemma_ability_used_once(b: Bird)
    ensures
        !crate::angry_birds::bird::can_use_ability(Bird { ability_triggered: true, ..b }),
{
}

} // verus!
