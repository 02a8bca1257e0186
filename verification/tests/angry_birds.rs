use little_games::angry_birds::bird::{Bird, BirdAbility, BirdQueue, BirdType};
use little_games::angry_birds::block::BlockType;
use little_games::angry_birds::level::{LevelManager, LEVEL_COUNT};
use little_games::angry_birds::pig::PigSize;
use little_games::angry_birds::rules::{calculate_stars, check_game_state, spawn_next_bird};
use little_games::palette::PaletteColor;

fn launched(bird_type: BirdType) -> Bird {
    let mut b = Bird::new(bird_type);
    b.launched = true;
    b
}

#[test]
fn bird_starts_ready_in_play() {
    let b = Bird::new(BirdType::Yellow);
    assert_eq!(b.bird_type, BirdType::Yellow);
    assert!(!b.launched);
    assert!(!b.used);
    assert!(b.active);
    assert!(!b.ability_triggered);
}

#[test]
fn bird_colors() {
    assert_eq!(Bird::new(BirdType::Red).get_color(), PaletteColor::Red);
    assert_eq!(Bird::new(BirdType::Blue).get_color(), PaletteColor::Blue);
    assert_eq!(Bird::new(BirdType::Yellow).get_color(), PaletteColor::Yellow);
    assert_eq!(Bird::new(BirdType::Black).get_color(), PaletteColor::Black);
    assert_eq!(Bird::new(BirdType::White).get_color(), PaletteColor::White);
}

#[test]
fn ability_hints() {
    assert_eq!(BirdType::Red.ability_hint(), "SPACE: Boost");
    assert_eq!(BirdType::Blue.ability_hint(), "SPACE: Split");
    assert_eq!(BirdType::Yellow.ability_hint(), "SPACE: Speed");
    assert_eq!(BirdType::Black.ability_hint(), "SPACE: Bomb");
    assert_eq!(BirdType::White.ability_hint(), "SPACE: Drop Egg");
}

#[test]
fn ability_of_each_bird() {
    assert_eq!(launched(BirdType::Red).use_ability(), Some(BirdAbility::Boost));
    assert_eq!(launched(BirdType::Blue).use_ability(), Some(BirdAbility::Split));
    assert_eq!(launched(BirdType::Yellow).use_ability(), Some(BirdAbility::SpeedUp));
    assert_eq!(launched(BirdType::Black).use_ability(), Some(BirdAbility::Bomb));
    assert_eq!(launched(BirdType::White).use_ability(), Some(BirdAbility::DropEggs));
}

#[test]
fn ability_offspring() {
    assert_eq!(BirdAbility::Split.offspring(), Some((BirdType::Blue, 3)));
    assert_eq!(BirdAbility::DropEggs.offspring(), Some((BirdType::White, 2)));
    assert_eq!(BirdAbility::Boost.offspring(), None);
    assert_eq!(BirdAbility::SpeedUp.offspring(), None);
    assert_eq!(BirdAbility::Bomb.offspring(), None);
}

#[test]
fn ability_works_only_once() {
    let mut b = launched(BirdType::Red);
    assert_eq!(b.use_ability(), Some(BirdAbility::Boost));
    assert!(b.ability_triggered);
    let before = b;
    assert_eq!(b.use_ability(), None);
    assert_eq!(b, before);
}

#[test]
fn ability_needs_a_launched_active_bird() {
    let mut waiting = Bird::new(BirdType::Blue);
    assert_eq!(waiting.use_ability(), None);
    assert!(!waiting.ability_triggered);
    let mut gone = launched(BirdType::Blue);
    gone.active = false;
    assert_eq!(gone.use_ability(), None);
    assert!(!gone.ability_triggered);
}

#[test]
fn queue_hands_out_birds_in_order() {
    let mut q = BirdQueue::new(vec![BirdType::Red, BirdType::Blue, BirdType::White]);
    assert_eq!(q.get_remaining(), 3);
    assert_eq!(q.get_next(), Some(BirdType::Red));
    q.advance();
    assert_eq!(q.get_next(), Some(BirdType::Blue));
    assert_eq!(q.get_remaining(), 2);
    q.advance();
    assert_eq!(q.get_next(), Some(BirdType::White));
    q.advance();
    assert_eq!(q.get_next(), None);
    assert_eq!(q.get_remaining(), 0);
    q.advance();
    assert_eq!(q.current_index, 3);
    assert_eq!(q.get_remaining(), 0);
    q.reset();
    assert_eq!(q.current_index, 0);
    assert_eq!(q.get_next(), Some(BirdType::Red));
}

#[test]
fn queue_remaining_saturates() {
    let q = BirdQueue { birds: vec![BirdType::Red], current_index: 5 };
    assert_eq!(q.get_remaining(), 0);
    assert_eq!(q.get_next(), None);
}

#[test]
fn block_and_pig_tables() {
    assert_eq!(BlockType::Wood.max_health(), 50);
    assert_eq!(BlockType::Stone.max_health(), 150);
    assert_eq!(BlockType::Ice.max_health(), 30);
    assert_eq!(BlockType::Wood.color(), PaletteColor::Brown);
    assert_eq!(BlockType::Stone.color(), PaletteColor::Gray);
    assert_eq!(BlockType::Ice.color(), PaletteColor::SkyBlue);
    assert_eq!(PigSize::Small.radius(), 18);
    assert_eq!(PigSize::Big.radius(), 28);
    assert_eq!(PigSize::Small.max_health(), 40);
    assert_eq!(PigSize::Big.max_health(), 80);
}

#[test]
fn level_manager_walks_the_levels() {
    let mut m = LevelManager::new();
    assert_eq!(m.levels.len(), LEVEL_COUNT);
    assert_eq!(m.get_level_number(), 1);
    for n in 2..=5 {
        assert!(m.next_level());
        assert_eq!(m.get_level_number(), n);
    }
    assert!(!m.next_level());
    assert_eq!(m.get_level_number(), 5);
    m.reset();
    assert_eq!(m.get_level_number(), 1);
}

#[test]
fn first_level_contents() {
    let m = LevelManager::new();
    let l = m.get_current_level();
    assert_eq!(l.birds, vec![BirdType::Red, BirdType::Red, BirdType::Yellow]);
    assert_eq!(l.blocks.len(), 4);
    assert_eq!(l.blocks[0].block_type, BlockType::Wood);
    assert_eq!((l.blocks[0].x, l.blocks[0].y, l.blocks[0].width, l.blocks[0].height), (550, 520, 20, 80));
    assert_eq!((l.blocks[3].x, l.blocks[3].y, l.blocks[3].width, l.blocks[3].height), (600, 455, 80, 15));
    assert_eq!(l.pigs.len(), 1);
    assert_eq!(l.pigs[0].pig_size, PigSize::Small);
    assert_eq!((l.pigs[0].x, l.pigs[0].y), (600, 430));
}

#[test]
fn level_sizes() {
    let m = LevelManager::new();
    let sizes: Vec<(usize, usize, usize)> =
        m.levels.iter().map(|l| (l.birds.len(), l.blocks.len(), l.pigs.len())).collect();
    assert_eq!(sizes, vec![(3, 4, 1), (4, 6, 2), (5, 11, 3), (5, 14, 4), (6, 20, 5)]);
    assert_eq!(
        m.levels[4].birds,
        vec![BirdType::Black, BirdType::Blue, BirdType::Yellow, BirdType::White, BirdType::Red, BirdType::Red]
    );
    assert_eq!(m.levels[4].pigs[4].pig_size, PigSize::Big);
    assert_eq!((m.levels[4].pigs[4].x, m.levels[4].pigs[4].y), (550, 335));
}

#[test]
fn levels_are_playable() {
    let m = LevelManager::new();
    for l in &m.levels {
        assert!(!l.birds.is_empty());
        assert!(!l.pigs.is_empty());
        for b in &l.blocks {
            assert!(b.width > 0 && b.height > 0);
            assert!(2 * b.x - b.width > 300 && 2 * b.x + b.width <= 1600);
            assert!(2 * b.y - b.height >= 0 && 2 * b.y + b.height <= 1200);
        }
        for p in &l.pigs {
            assert!(150 < p.x && p.x < 800 && 0 < p.y && p.y < 600);
        }
    }
}

#[test]
fn level_can_be_edited_in_place() {
    let mut m = LevelManager::new();
    m.get_current_level_mut().birds.push(BirdType::Black);
    assert_eq!(m.get_current_level().birds.len(), 4);
    assert_eq!(m.levels[1].birds.len(), 4);
}

#[test]
fn stars_go_by_birds_used() {
    assert_eq!(calculate_stars(1, 3), 3);
    assert_eq!(calculate_stars(2, 3), 3);
    assert_eq!(calculate_stars(3, 3), 2);
    assert_eq!(calculate_stars(4, 6), 1);
    assert_eq!(calculate_stars(0, 5), 3);
    assert_eq!(calculate_stars(3, 6), 2);
}

#[test]
fn all_pigs_down_completes_the_level() {
    let birds = vec![launched(BirdType::Red)];
    let (mut all, mut complete, mut over) = (false, false, false);
    check_game_state(&birds, &[true, true], &mut all, &mut complete, &mut over);
    assert!(all);
    assert!(complete);
    assert!(!over);
}

#[test]
fn no_flying_bird_with_pigs_left_ends_the_game() {
    let mut used = launched(BirdType::Red);
    used.ability_triggered = true;
    let birds = vec![used, Bird::new(BirdType::Blue)];
    let (mut all, mut complete, mut over) = (true, false, false);
    check_game_state(&birds, &[true, false], &mut all, &mut complete, &mut over);
    assert!(!all);
    assert!(!complete);
    assert!(over);
}

#[test]
fn a_flying_bird_keeps_the_game_going() {
    let birds = vec![launched(BirdType::Yellow)];
    let (mut all, mut complete, mut over) = (false, false, false);
    check_game_state(&birds, &[false], &mut all, &mut complete, &mut over);
    assert!(!all);
    assert!(!complete);
    assert!(!over);
}

#[test]
fn no_pigs_means_complete() {
    let (mut all, mut complete, mut over) = (false, false, false);
    check_game_state(&[], &[], &mut all, &mut complete, &mut over);
    assert!(all && complete && !over);
}

#[test]
fn spawning_the_next_bird() {
    let q = Some(BirdQueue::new(vec![BirdType::Red]));
    let mut handle: Option<u32> = Some(7);
    assert!(spawn_next_bird(&q, &mut handle));
    assert_eq!(handle, Some(7));

    let mut done = BirdQueue::new(vec![BirdType::Red]);
    done.advance();
    let mut handle: Option<u32> = Some(7);
    assert!(!spawn_next_bird(&Some(done), &mut handle));
    assert_eq!(handle, None);

    let mut handle: Option<u32> = Some(3);
    assert!(!spawn_next_bird(&None, &mut handle));
    assert_eq!(handle, None);
}
