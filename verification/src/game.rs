//! The game's screens and what the keys do on them.

use vstd::prelude::*;

verus! {

/// The screen the game shows.
#[derive(Clone, Copy, Debug, PartialEq, Eq, Structural)]
pub enum Screen {
    /// The title screen.
    Menu,
    /// The plant itself.
    Game,
}

/// The keys the game listens to; every other key is `Other`.
#[derive(Clone, Copy, Debug, PartialEq, Eq, Structural)]
pub enum Key {
    Enter,
    Space,
    Q,
    Escape,
    R,
    Z,
    Other,
}

/// What a key press asks of the game.
#[derive(Clone, Copy, Debug, PartialEq, Eq, Structural)]
pub enum Command {
    /// The key means nothing here.
    Nothing,
    /// Leave the game.
    Quit,
    /// Go from the title screen to the plant.
    StartGame,
    /// Go back to the title screen.
    BackToMenu,
    /// Water the living plant.
    Water,
    /// Put the living plant to sleep, or wake it.
    ToggleSleep,
    /// Replace the dead plant with a new one.
    NewPlant,
}

/// The command of `key` on `screen`, given whether the plant is dead.
/// On the title screen Enter and Space start the game and Q and Escape
/// quit. On the plant's screen Escape goes back and Q quits; R waters a
/// living plant and replaces a dead one; Z puts a living plant to sleep or
/// wakes it.
pub open spec fn command_of(screen: Screen, dead: bool, key: Key) -> Command {
    match screen {
        Screen::Menu => match key {
            Key::Enter | Key::Space => Command::StartGame,
            Key::Q | Key::Escape => Command::Quit,
            _ => Command::Nothing,
        },
        Screen::Game => match key {
            Key::R => if dead {
                Command::NewPlant
            } else {
                Command::Water
            },
            Key::Z => if dead {
                Command::Nothing
            } else {
                Command::ToggleSleep
            },
            Key::Escape => Command::BackToMenu,
            Key::Q => Command::Quit,
            _ => Command::Nothing,
        },
    }
}

/// The command that a press of `key` gives on `screen`.
pub fn on_key(screen: Screen, dead: bool, key: Key) -> (c: Command)
    ensures
        c == command_of(screen, dead, key),
{
    match screen {
        Screen::Menu => match key {
            Key::Enter | Key::Space => Command::StartGame,
            Key::Q | Key::Escape => Command::Quit,
            _ => Command::Nothing,
        },
        Screen::Game => {
            if dead {
                match key {
                    Key::R => Command::NewPlant,
                    Key::Escape => Command::BackToMenu,
                    Key::Q => Command::Quit,
                    _ => Command::Nothing,
                }
            } else {
                match key {
                    Key::R => Command::Water,
                    Key::Z => Command::ToggleSleep,
                    Key::Escape => Command::BackToMenu,
                    Key::Q => Command::Quit,
                    _ => Command::Nothing,
                }
            }
        },
    }
}

/// The screen after `command` was carried out on `screen`.
pub open spec fn screen_after_of(screen: Screen, command: Command) -> Screen {
    match command {
        Command::StartGame => Screen::Game,
        Command::BackToMenu => Screen::Menu,
        _ => screen,
    }
}

/// The screen to show once `command` has been carried out on `screen`.
pub fn screen_after(screen: Screen, command: Command) -> (next: Screen)
    ensures
        next == screen_after_of(screen, command),
{
    match command {
        Command::StartGame => Screen::Game,
        Command::BackToMenu => Screen::Menu,
        _ => screen,
    }
}

/// What the plant says after a day has passed.
#[derive(Clone, Copy, Debug, PartialEq, Eq, Structural)]
pub enum Speech {
    /// The plant's everyday words.
    Daily,
    /// The plant's last words.
    Farewell,
}

/// After a day has passed, a plant that is dead and has not yet said
/// farewell says farewell; otherwise it speaks as every day.
pub fn speech_after_tick(dead: bool, farewell_begun: bool) -> (s: Speech)
    ensures
        s == (if dead && !farewell_begun {
            Speech::Farewell
        } else {
            Speech::Daily
        }),
{
    if dead && !farewell_begun {
        Speech::Farewell
    } else {
        Speech::Daily
    }
}

/// Q quits from every screen, whatever the plant's state.
pub proof fn lemma_q_always_quits(screen: Screen, dead: bool)
    ensures
        command_of(screen, dead, Key::Q) == Command::Quit,
{
}

/// On the title screen no key touches the plant: a key there starts the
/// game, quits, or does nothing.
pub proof fn lemma_menu_leaves_plant_alone(dead: bool, key: Key)
    ensures
        command_of(Screen::Menu, dead, key) == Command::StartGame
            || command_of(Screen::Menu, dead, key) == Command::Quit
            || command_of(Screen::Menu, dead, key) == Command::Nothing,
{
}

/// A dead plant is never watered nor put to sleep, and a living one is
/// never replaced.
pub proof fn lemma_commands_fit_the_plant(screen: Screen, dead: bool, key: Key)
    ensures
        dead ==> command_of(screen, dead, key) != Command::Water,
        dead ==> command_of(screen, dead, key) != Command::ToggleSleep,
        !dead ==> command_of(screen, dead, key) != Command::NewPlant,
{
}

/// Escape on the plant's screen leads to the title screen, and Enter on the
/// title screen leads back to the plant.
pub proof fn lemma_escape_and_enter_round_trip(dead: bool)
    ensures
        screen_after_of(Screen::Game, command_of(Screen::Game, dead, Key::Escape)) == Screen::Menu,
        screen_after_of(Screen::Menu, command_of(Screen::Menu, dead, Key::Enter)) == Screen::Game,
{
}

/// On the plant's screen only R, Z, Escape and Q mean anything; every
/// other key does nothing there.
pub proof fn lemma_game_screen_keys(dead: bool, key: Key)
    ensures
        key != Key::R && key != Key::Z && key != Key::Escape && key != Key::Q ==> command_of(
            Screen::Game,
            dead,
            key,
        ) == Command::Nothing,
{
}

/// On the title screen only Enter, Space, Q and Escape mean anything.
pub proof fn lemma_menu_screen_keys(dead: bool, key: Key)
    ensures
        key != Key::Enter && key != Key::Space && key != Key::Q && key != Key::Escape ==> command_of(
            Screen::Menu,
            dead,
            key,
        ) == Command::Nothing,
{
}

/// Each command comes from exactly one kind of key press: the game starts
/// by Enter or Space on the title screen; it quits by Q anywhere or Escape
/// on the title screen; Escape on the plant's screen goes back; R on the
/// plant's screen waters a living plant and replaces a dead one; only Z on
/// a living plant's screen toggles sleep.
pub proof fn lemma_command_sources(screen: Screen, dead: bool, key: Key)
    ensures
        (command_of(screen, dead, key) == Command::StartGame) == (screen == Screen::Menu && (key
            == Key::Enter || key == Key::Space)),
        (command_of(screen, dead, key) == Command::Quit) == (key == Key::Q || (screen
            == Screen::Menu && key == Key::Escape)),
        (command_of(screen, dead, key) == Command::BackToMenu) == (screen == Screen::Game && key
            == Key::Escape),
        (command_of(screen, dead, key) == Command::Water) == (screen == Screen::Game && !dead && key
            == Key::R),
        (command_of(screen, dead, key) == Command::NewPlant) == (screen == Screen::Game && dead
            && key == Key::R),
        (command_of(screen, dead, key) == Command::ToggleSleep) == (screen == Screen::Game && !dead
            && key == Key::Z),
{
}

/// Only starting the game and going back change the screen: starting leads
/// to the plant, going back to the title screen, and every other command
/// leaves the screen as it was.
pub proof fn lemma_only_navigation_changes_screen(screen: Screen, command: Command)
    ensures
        command == Command::StartGame ==> screen_after_of(screen, command) == Screen::Game,
        command == Command::BackToMenu ==> screen_after_of(screen, command) == Screen::Menu,
        command != Command::StartGame && command != Command::BackToMenu ==> screen_after_of(
            screen,
            command,
        ) == screen,
{
}

} // verus!
