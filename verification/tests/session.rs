use little_games::angry_birds::bird::{BirdAbility, BirdType};
use little_games::angry_birds::session::{GameState, Session, SettleOutcome};

#[test]
fn session_starts_at_level_one() {
    let s: Session<u32> = Session::new();
    assert_eq!(s.level_manager.get_level_number(), 1);
    assert_eq!(s.next_bird_type(), Some(BirdType::Red));
    assert!(s.birds.is_empty());
    assert_eq!(s.current_bird_handle, None);
    assert_eq!(s.game_state, GameState::Aiming);
    assert_eq!(s.score, 0);
    assert_eq!(s.total_birds_used, 0);
    assert!(!s.waiting_for_settle && !s.all_pigs_destroyed && !s.level_complete && !s.game_over);
    assert_eq!(s.bird_queue.as_ref().map(|q| q.get_remaining()), Some(3));
}

#[test]
fn holding_and_launching_a_bird() {
    let mut s: Session<u32> = Session::new();
    s.hold_bird(11);
    assert_eq!(s.current_bird_handle, Some(11));
    assert_eq!(s.birds.len(), 1);
    assert_eq!(s.birds[0].bird_type, BirdType::Red);
    assert!(!s.birds[0].launched);
    s.launch();
    assert!(s.birds[0].launched);
    assert_eq!(s.total_birds_used, 1);
    assert_eq!(s.current_bird_handle, None);
    assert_eq!(s.game_state, GameState::Flying);
    assert_eq!(s.bird_queue.as_ref().map(|q| q.current_index), Some(1));
    assert_eq!(s.next_bird_type(), Some(BirdType::Red));
}

#[test]
fn ability_goes_to_first_flying_bird() {
    let mut s: Session<u32> = Session::new();
    assert_eq!(s.trigger_ability(), None);
    s.hold_bird(1);
    s.launch();
    assert_eq!(s.trigger_ability(), Some((0, BirdAbility::Boost)));
    assert!(s.birds[0].ability_triggered);
    assert_eq!(s.trigger_ability(), None);
}

#[test]
fn offspring_join_the_birds() {
    let mut s: Session<u32> = Session::new();
    s.add_offspring(BirdAbility::Split);
    assert_eq!(s.birds.len(), 3);
    assert!(s.birds.iter().all(|b| b.bird_type == BirdType::Blue && !b.launched && b.active));
    s.add_offspring(BirdAbility::DropEggs);
    assert_eq!(s.birds.len(), 5);
    assert_eq!(s.birds[4].bird_type, BirdType::White);
    s.add_offspring(BirdAbility::Bomb);
    assert_eq!(s.birds.len(), 5);
}

#[test]
fn knocking_things_down_scores() {
    let mut s: Session<u32> = Session::new();
    s.knock_down_block();
    s.knock_out_pig();
    assert_eq!(s.score, 60);
}

#[test]
fn settling_with_all_pigs_down_completes_the_level() {
    let mut s: Session<u32> = Session::new();
    s.hold_bird(1);
    s.launch();
    assert_eq!(s.settle(&[true]), SettleOutcome::LevelDecided);
    assert!(s.all_pigs_destroyed);
    assert!(s.level_complete);
    assert!(!s.game_over);
    assert_eq!(s.stars(), 3);
}

#[test]
fn settling_with_a_spent_bird_and_pigs_left_is_game_over() {
    let mut s: Session<u32> = Session::new();
    s.hold_bird(1);
    s.launch();
    s.trigger_ability();
    assert_eq!(s.settle(&[false]), SettleOutcome::LevelDecided);
    assert!(s.game_over);
    assert!(!s.level_complete);
}

#[test]
fn settling_with_no_bird_held_ends_the_game() {
    let mut s: Session<u32> = Session::new();
    s.hold_bird(1);
    s.launch();
    assert_eq!(
        s.settle(&[false]),
        SettleOutcome::Continue { reset_slingshot: true, aiming_again: false }
    );
    assert!(s.game_over);
    assert_eq!(s.current_bird_handle, None);
}

#[test]
fn settling_with_a_bird_held_resumes_aiming() {
    let mut s: Session<u32> = Session::new();
    s.hold_bird(1);
    s.launch();
    s.hold_bird(2);
    s.game_state = GameState::Flying;
    s.waiting_for_settle = true;
    assert_eq!(
        s.settle(&[false]),
        SettleOutcome::Continue { reset_slingshot: true, aiming_again: true }
    );
    assert!(!s.game_over);
    assert_eq!(s.game_state, GameState::Aiming);
    assert!(!s.waiting_for_settle);
    assert_eq!(s.current_bird_handle, Some(2));
}

#[test]
fn next_level_keeps_the_score() {
    let mut s: Session<u32> = Session::new();
    s.hold_bird(1);
    s.launch();
    s.knock_out_pig();
    s.settle(&[true]);
    assert!(s.advance_level());
    assert_eq!(s.level_manager.get_level_number(), 2);
    assert_eq!(s.score, 50);
    assert_eq!(s.total_birds_used, 0);
    assert!(!s.level_complete && !s.all_pigs_destroyed);
    assert!(s.birds.is_empty());
    assert_eq!(s.game_state, GameState::Aiming);
    assert_eq!(s.bird_queue.as_ref().map(|q| q.birds.clone()),
        Some(vec![BirdType::Red, BirdType::Blue, BirdType::Yellow, BirdType::Yellow]));
}

#[test]
fn last_level_does_not_advance() {
    let mut s: Session<u32> = Session::new();
    for _ in 0..4 {
        assert!(s.advance_level());
    }
    assert_eq!(s.level_manager.get_level_number(), 5);
    s.score = 90;
    assert!(!s.advance_level());
    assert_eq!(s.level_manager.get_level_number(), 5);
    assert_eq!(s.score, 90);
}

#[test]
fn restart_goes_back_to_level_one() {
    let mut s: Session<u32> = Session::new();
    s.advance_level();
    s.advance_level();
    s.hold_bird(3);
    s.launch();
    s.knock_down_block();
    s.game_over = true;
    s.restart();
    assert_eq!(s.level_manager.get_level_number(), 1);
    assert_eq!(s.score, 0);
    assert_eq!(s.total_birds_used, 0);
    assert!(!s.game_over && !s.level_complete && !s.all_pigs_destroyed && !s.waiting_for_settle);
    assert!(s.birds.is_empty());
    assert_eq!(s.current_bird_handle, None);
    assert_eq!(s.game_state, GameState::Flying);
    assert_eq!(s.next_bird_type(), Some(BirdType::Red));
}

#[test]
fn stars_drop_with_birds_used() {
    let mut s: Session<u32> = Session::new();
    for _ in 0..3 {
        s.hold_bird(1);
        s.launch();
    }
    assert_eq!(s.total_birds_used, 3);
    assert_eq!(s.stars(), 2);
    assert_eq!(s.next_bird_type(), None);
}
