use whyyouforgetme::game::{on_key, screen_after, speech_after_tick, Command, Key, Screen, Speech};

#[test]
fn menu_keys() {
    assert_eq!(on_key(Screen::Menu, false, Key::Enter), Command::StartGame);
    assert_eq!(on_key(Screen::Menu, true, Key::Space), Command::StartGame);
    assert_eq!(on_key(Screen::Menu, false, Key::Q), Command::Quit);
    assert_eq!(on_key(Screen::Menu, false, Key::Escape), Command::Quit);
    assert_eq!(on_key(Screen::Menu, false, Key::R), Command::Nothing);
    assert_eq!(on_key(Screen::Menu, false, Key::Z), Command::Nothing);
}

#[test]
fn living_plant_keys() {
    assert_eq!(on_key(Screen::Game, false, Key::R), Command::Water);
    assert_eq!(on_key(Screen::Game, false, Key::Z), Command::ToggleSleep);
    assert_eq!(on_key(Screen::Game, false, Key::Escape), Command::BackToMenu);
    assert_eq!(on_key(Screen::Game, false, Key::Q), Command::Quit);
    assert_eq!(on_key(Screen::Game, false, Key::Enter), Command::Nothing);
}

#[test]
fn dead_plant_keys() {
    assert_eq!(on_key(Screen::Game, true, Key::R), Command::NewPlant);
    assert_eq!(on_key(Screen::Game, true, Key::Z), Command::Nothing);
    assert_eq!(on_key(Screen::Game, true, Key::Escape), Command::BackToMenu);
    assert_eq!(on_key(Screen::Game, true, Key::Q), Command::Quit);
    assert_eq!(on_key(Screen::Game, true, Key::Other), Command::Nothing);
}

#[test]
fn screens_follow_commands() {
    assert_eq!(screen_after(Screen::Menu, Command::StartGame), Screen::Game);
    assert_eq!(screen_after(Screen::Game, Command::BackToMenu), Screen::Menu);
    assert_eq!(screen_after(Screen::Game, Command::Water), Screen::Game);
    assert_eq!(screen_after(Screen::Menu, Command::Nothing), Screen::Menu);
}

#[test]
fn escape_then_enter_returns_to_the_plant() {
    let c = on_key(Screen::Game, false, Key::Escape);
    let s = screen_after(Screen::Game, c);
    assert_eq!(s, Screen::Menu);
    let c = on_key(s, false, Key::Enter);
    assert_eq!(screen_after(s, c), Screen::Game);
}

#[test]
fn farewell_only_once() {
    assert_eq!(speech_after_tick(true, false), Speech::Farewell);
    assert_eq!(speech_after_tick(true, true), Speech::Daily);
    assert_eq!(speech_after_tick(false, false), Speech::Daily);
    assert_eq!(speech_after_tick(false, true), Speech::Daily);
}
