use little_games::space_defender::game::{
    difficulty_tier, enemy_spawn_x, push_within_limit, FrameAction, GameStatus, MAX_BULLETS, MAX_ENEMIES,
};

#[test]
fn limits() {
    assert_eq!(MAX_BULLETS, 20);
    assert_eq!(MAX_ENEMIES, 10);
}

#[test]
fn difficulty_climbs_every_fifty_points() {
    assert_eq!(difficulty_tier(0), 0);
    assert_eq!(difficulty_tier(49), 0);
    assert_eq!(difficulty_tier(50), 1);
    assert_eq!(difficulty_tier(120), 2);
    assert_eq!(difficulty_tier(500), 10);
    assert_eq!(difficulty_tier(-60), -1);
    let mut last = 0;
    for s in (0..1000).step_by(10) {
        let t = difficulty_tier(s);
        assert!(t >= last);
        last = t;
    }
}

#[test]
fn enemies_spawn_away_from_the_edges() {
    assert_eq!(enemy_spawn_x(0), 50);
    assert_eq!(enemy_spawn_x(699), 749);
    assert_eq!(enemy_spawn_x(700), 50);
    assert_eq!(enemy_spawn_x(1234), 584);
    assert_eq!(enemy_spawn_x(u32::MAX), u32::MAX % 700 + 50);
}

#[test]
fn new_game_status() {
    let s = GameStatus::new();
    assert_eq!(s.score, 0);
    assert!(!s.is_game_over());
    assert!(!s.wants_to_quit());
}

#[test]
fn escape_asks_to_quit() {
    let mut s = GameStatus::new();
    s.score = 30;
    assert_eq!(s.begin_frame(true, true), FrameAction::Quit);
    assert!(s.wants_to_quit());
    assert_eq!(s.score, 30);
}

#[test]
fn restart_after_game_over() {
    let mut s = GameStatus { score: 70, game_over: true, wants_to_quit: false };
    assert_eq!(s.begin_frame(false, false), FrameAction::Wait);
    assert_eq!(s, GameStatus { score: 70, game_over: true, wants_to_quit: false });
    assert_eq!(s.begin_frame(false, true), FrameAction::Restart);
    assert_eq!(s, GameStatus::new());
    assert_eq!(s.begin_frame(false, true), FrameAction::Play);
}

#[test]
fn reset_clears_everything() {
    let mut s = GameStatus { score: 90, game_over: true, wants_to_quit: true };
    s.reset();
    assert_eq!(s, GameStatus::new());
}

#[test]
fn each_enemy_destroyed_scores_ten() {
    let mut s = GameStatus::new();
    let mut bullets = vec![true, true, true];
    let mut enemies = vec![true, true];
    // bullet 0 touches both enemies, bullet 1 touches enemy 0, bullet 2 enemy 1
    let overlaps = vec![vec![true, true], vec![true, false], vec![false, true]];
    s.resolve_hits(&mut bullets, &mut enemies, &overlaps);
    assert_eq!(bullets, vec![false, true, false]);
    assert_eq!(enemies, vec![false, false]);
    assert_eq!(s.score, 20);
}

#[test]
fn spent_bullets_and_enemies_do_not_hit() {
    let mut s = GameStatus { score: 40, game_over: false, wants_to_quit: false };
    let mut bullets = vec![false, true];
    let mut enemies = vec![false, true];
    let overlaps = vec![vec![true, true], vec![true, false]];
    s.resolve_hits(&mut bullets, &mut enemies, &overlaps);
    assert_eq!(bullets, vec![false, true]);
    assert_eq!(enemies, vec![false, true]);
    assert_eq!(s.score, 40);
}

#[test]
fn enemy_touching_ship_or_passing_bottom_ends_game() {
    let mut s = GameStatus::new();
    s.check_defeat(&vec![true, false], &vec![false, true], &vec![false, true]);
    assert!(!s.is_game_over());
    s.check_defeat(&vec![true, true], &vec![false, true], &vec![false, false]);
    assert!(s.is_game_over());
    let mut t = GameStatus::new();
    t.check_defeat(&vec![true], &vec![false], &vec![true]);
    assert!(t.is_game_over());
}

#[test]
fn screen_holds_a_limited_number() {
    let mut v: Vec<u8> = Vec::new();
    for i in 0..25u8 {
        let added = push_within_limit(&mut v, i, MAX_BULLETS);
        assert_eq!(added, (i as usize) < MAX_BULLETS);
    }
    assert_eq!(v.len(), MAX_BULLETS);
    assert_eq!(v[19], 19);
    let mut w = vec![1, 2, 3];
    assert!(!push_within_limit(&mut w, 4, 2));
    assert_eq!(w, vec![1, 2, 3]);
}
