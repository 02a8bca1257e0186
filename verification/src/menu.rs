use vstd::prelude::*;

use crate::palette::PaletteColor;

verus! {

/// Which screen the program shows.
#[derive(Clone, Copy, Debug, PartialEq, Eq, Structural)]
pub enum GameState {
    Menu,
    SpaceDefender,
    AngryBirds,
}

/// The game highlighted in the menu, if any.
#[derive(Clone, Copy, Debug, PartialEq, Eq, Structural)]
pub enum MenuSelection {
    NoGame,
    SpaceDefender,
    AngryBirds,
}

/// The keys of a frame that the menu reads.
#[derive(Clone, Copy, Debug, PartialEq, Eq, Structural)]
pub struct MenuKeys {
    /// `1` on the keyboard or the keypad.
    pub one: bool,
    /// `2` on the keyboard or the keypad.
    pub two: bool,
    pub escape: bool,
    pub enter: bool,
}

/// The selection after the number keys of a frame: `2` wins over `1`, and
/// without either the selection stays.
pub open spec fn selection_after(selection: MenuSelection, keys: MenuKeys) -> MenuSelection {
    if keys.two {
        MenuSelection::AngryBirds
    } else if keys.one {
        MenuSelection::SpaceDefender
    } else {
        selection
    }
}

/// The screen that a selection starts.
pub open spec fn game_of(selection: MenuSelection) -> GameState {
    match selection {
        MenuSelection::NoGame => GameState::Menu,
        MenuSelection::SpaceDefender => GameState::SpaceDefender,
        MenuSelection::AngryBirds => GameState::AngryBirds,
    }
}

/// The number keys pick games on their own: `2` picks Angry Birds whatever
/// else is pressed, `1` alone picks Space Defender, and without either the
/// selection stays. Enter starts the picked game and nothing else.
pub proof fn lemma_menu_keys(selection: MenuSelection, keys: MenuKeys)
    ensures
        keys.two ==> selection_after(selection, keys) == MenuSelection::AngryBirds,
        keys.one && !keys.two ==> selection_after(selection, keys) == MenuSelection::SpaceDefender,
        !keys.one && !keys.two ==> selection_after(selection, keys) == selection,
        game_of(MenuSelection::AngryBirds) == GameState::AngryBirds,
        game_of(MenuSelection::SpaceDefender) == GameState::SpaceDefender,
        game_of(MenuSelection::NoGame) == GameState::Menu,
{
}

/// Pressing a number key in one frame and Enter in a later one starts that
/// game, whatever was selected before.
pub proof fn lemma_pick_then_start(selection: MenuSelection)
    ensures
        ({
            let two = MenuKeys { one: false, two: true, escape: false, enter: false };
            let enter = MenuKeys { one: false, two: false, escape: false, enter: true };
            game_of(selection_after(selection_after(selection, two), enter)) == GameState::AngryBirds
        }),
        ({
            let one = MenuKeys { one: true, two: false, escape: false, enter: false };
            let enter = MenuKeys { one: false, two: false, escape: false, enter: true };
            game_of(selection_after(selection_after(selection, one), enter)) == GameState::SpaceDefender
        }),
{
}

impl MenuSelection {
    /// Whether a game is highlighted.
    pub fn is_selected(&self) -> (b: bool)
        ensures
            b == !(*self is NoGame),
    {
        !matches!(self, MenuSelection::NoGame)
    }
}

/// The colour of a menu entry: yellow when it is the highlighted one, white
/// otherwise.
pub fn menu_item_color(selected: MenuSelection, item: MenuSelection) -> (c: PaletteColor)
    ensures
        c == (if selected == item {
            PaletteColor::Yellow
        } else {
            PaletteColor::White
        }),
{
    if selected == item {
        PaletteColor::Yellow
    } else {
        PaletteColor::White
    }
}

/// The program's screen and the menu's selection.
#[derive(Clone, Copy, Debug, PartialEq, Eq, Structural)]
pub struct Launcher {
    pub state: GameState,
    pub selection: MenuSelection,
}

impl Launcher {
    /// The program starts at the menu with nothing highlighted.
    pub fn new() -> (l: Launcher)
        ensures
            l == (Launcher { state: GameState::Menu, selection: MenuSelection::NoGame }),
    {
        Launcher { state: GameState::Menu, selection: MenuSelection::NoGame }
    }

    /// Handles the keys of a frame on the menu.
    ///
    /// The number keys pick a game; Escape quits the program, and returns
    /// `true`; Enter starts the picked game, if one is picked.
    pub fn handle_menu_keys(&mut self, keys: MenuKeys) -> (quit: bool)
        requires
            old(self).state == GameState::Menu,
        ensures
            quit == keys.escape,
            final(self).selection == selection_after(old(self).selection, keys),
            final(self).state == (if !keys.escape && keys.enter {
                game_of(final(self).selection)
            } else {
                GameState::Menu
            }),
            final(self).state != GameState::Menu ==> keys.enter && !keys.escape
                && !(final(self).selection is NoGame),
            keys.two ==> final(self).selection == MenuSelection::AngryBirds,
            keys.one && !keys.two ==> final(self).selection == MenuSelection::SpaceDefender,
            !keys.one && !keys.two ==> final(self).selection == old(self).selection,
            !keys.escape && keys.enter && final(self).selection == MenuSelection::AngryBirds
                ==> final(self).state == GameState::AngryBirds,
            !keys.escape && keys.enter && final(self).selection == MenuSelection::SpaceDefender
                ==> final(self).state == GameState::SpaceDefender,
    {
        if keys.one {
            self.selection = MenuSelection::SpaceDefender;
        }
        if keys.two {
            self.selection = MenuSelection::AngryBirds;
        }
        if keys.escape {
            return true;
        }
        if keys.enter && self.selection.is_selected() {
            match self.selection {
                MenuSelection::SpaceDefender => {
                    self.state = GameState::SpaceDefender;
                },
                MenuSelection::AngryBirds => {
                    self.state = GameState::AngryBirds;
                },
                MenuSelection::NoGame => {},
            }
        }
        false
    }

    /// Leaves a game for the menu, with nothing highlighted.
    pub fn return_to_menu(&mut self)
        ensures
            *final(self) == (Launcher { state: GameState::Menu, selection: MenuSelection::NoGame }),
    {
        self.state = GameState::Menu;
        self.selection = MenuSelection::NoGame;
    }
}

} // verus!
