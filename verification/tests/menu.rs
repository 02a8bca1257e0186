use little_games::menu::{menu_item_color, GameState, Launcher, MenuKeys, MenuSelection};
use little_games::palette::PaletteColor;

fn keys(one: bool, two: bool, escape: bool, enter: bool) -> MenuKeys {
    MenuKeys { one, two, escape, enter }
}

#[test]
fn selection_flags() {
    assert!(!MenuSelection::NoGame.is_selected());
    assert!(MenuSelection::SpaceDefender.is_selected());
    assert!(MenuSelection::AngryBirds.is_selected());
}

#[test]
fn enter_without_selection_stays() {
    let mut l = Launcher::new();
    assert!(!l.handle_menu_keys(keys(false, false, false, true)));
    assert_eq!(l.state, GameState::Menu);
    assert_eq!(l.selection, MenuSelection::NoGame);
}

#[test]
fn pick_and_start_space_defender() {
    let mut l = Launcher::new();
    assert!(!l.handle_menu_keys(keys(true, false, false, false)));
    assert_eq!(l.selection, MenuSelection::SpaceDefender);
    assert_eq!(l.state, GameState::Menu);
    assert!(!l.handle_menu_keys(keys(false, false, false, true)));
    assert_eq!(l.state, GameState::SpaceDefender);
    l.return_to_menu();
    assert_eq!(l, Launcher::new());
}

#[test]
fn two_wins_over_one() {
    let mut l = Launcher::new();
    assert!(!l.handle_menu_keys(keys(true, true, false, true)));
    assert_eq!(l.selection, MenuSelection::AngryBirds);
    assert_eq!(l.state, GameState::AngryBirds);
}

#[test]
fn escape_quits_before_starting() {
    let mut l = Launcher::new();
    assert!(l.handle_menu_keys(keys(true, false, true, true)));
    assert_eq!(l.selection, MenuSelection::SpaceDefender);
    assert_eq!(l.state, GameState::Menu);
}

#[test]
fn highlight_color() {
    assert_eq!(menu_item_color(MenuSelection::AngryBirds, MenuSelection::AngryBirds), PaletteColor::Yellow);
    assert_eq!(menu_item_color(MenuSelection::AngryBirds, MenuSelection::SpaceDefender), PaletteColor::White);
    assert_eq!(menu_item_color(MenuSelection::NoGame, MenuSelection::SpaceDefender), PaletteColor::White);
}
