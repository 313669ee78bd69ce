use tsw_io::keymap::Direction;
use tsw_io::keymap::Key;
use tsw_io::keymap::KeyAction;
use tsw_io::keymap::KeyEvent;
use tsw_io::keymap::KeyToken;
use tsw_io::keymap::key_plan;
use tsw_io::keymap::parse_key_combo;
use tsw_io::keymap::parse_token;
use tsw_io::keymap::split_plus;

fn chars(s: &str) -> Vec<char> {
    s.chars().collect()
}

#[test]
fn split_on_plus_keeps_empty_pieces() {
    let parts = split_plus(&chars("CTRL+S"));
    assert_eq!(parts, vec![chars("CTRL"), chars("S")]);
    let parts = split_plus(&chars("CTRL+"));
    assert_eq!(parts, vec![chars("CTRL"), chars("")]);
    let parts = split_plus(&chars("W"));
    assert_eq!(parts, vec![chars("W")]);
    let parts = split_plus(&chars(""));
    assert_eq!(parts, vec![chars("")]);
}

#[test]
fn tokens_match_without_regard_to_case() {
    assert_eq!(parse_token(&chars("CTRL")), KeyToken::Modifier(Key::Control));
    assert_eq!(parse_token(&chars("ctrl")), KeyToken::Modifier(Key::Control));
    assert_eq!(parse_token(&chars("Control")), KeyToken::Modifier(Key::Control));
    assert_eq!(parse_token(&chars("shift")), KeyToken::Modifier(Key::Shift));
    assert_eq!(parse_token(&chars("ALT")), KeyToken::Modifier(Key::Alt));
    assert_eq!(parse_token(&chars("win")), KeyToken::Modifier(Key::Meta));
    assert_eq!(parse_token(&chars("Super")), KeyToken::Modifier(Key::Meta));
    assert_eq!(parse_token(&chars("meta")), KeyToken::Modifier(Key::Meta));
}

#[test]
fn named_keys_parse() {
    assert_eq!(parse_token(&chars("F1")), KeyToken::Main(Key::F1));
    assert_eq!(parse_token(&chars("f12")), KeyToken::Main(Key::F12));
    assert_eq!(parse_token(&chars("space")), KeyToken::Main(Key::Space));
    assert_eq!(parse_token(&chars("Enter")), KeyToken::Main(Key::Return));
    assert_eq!(parse_token(&chars("RETURN")), KeyToken::Main(Key::Return));
    assert_eq!(parse_token(&chars("esc")), KeyToken::Main(Key::Escape));
    assert_eq!(parse_token(&chars("Escape")), KeyToken::Main(Key::Escape));
    assert_eq!(parse_token(&chars("pgdn")), KeyToken::Main(Key::PageDown));
    assert_eq!(parse_token(&chars("PAGEUP")), KeyToken::Main(Key::PageUp));
    assert_eq!(parse_token(&chars("arrowleft")), KeyToken::Main(Key::LeftArrow));
    assert_eq!(parse_token(&chars("up")), KeyToken::Main(Key::UpArrow));
    assert_eq!(parse_token(&chars("numpad7")), KeyToken::Main(Key::Numpad7));
    assert_eq!(parse_token(&chars("del")), KeyToken::Main(Key::Delete));
    assert_eq!(parse_token(&chars("ins")), KeyToken::Main(Key::Insert));
    assert_eq!(parse_token(&chars("home")), KeyToken::Main(Key::Home));
    assert_eq!(parse_token(&chars("end")), KeyToken::Main(Key::End));
    assert_eq!(parse_token(&chars("tab")), KeyToken::Main(Key::Tab));
    assert_eq!(parse_token(&chars("backspace")), KeyToken::Main(Key::Backspace));
}

#[test]
fn remaining_named_keys_parse() {
    assert_eq!(parse_token(&chars("F10")), KeyToken::Main(Key::F10));
    assert_eq!(parse_token(&chars("f11")), KeyToken::Main(Key::F11));
    assert_eq!(parse_token(&chars("ARROWUP")), KeyToken::Main(Key::UpArrow));
    assert_eq!(parse_token(&chars("down")), KeyToken::Main(Key::DownArrow));
    assert_eq!(parse_token(&chars("arrowdown")), KeyToken::Main(Key::DownArrow));
    assert_eq!(parse_token(&chars("LEFT")), KeyToken::Main(Key::LeftArrow));
    assert_eq!(parse_token(&chars("Right")), KeyToken::Main(Key::RightArrow));
    assert_eq!(parse_token(&chars("arrowright")), KeyToken::Main(Key::RightArrow));
    assert_eq!(parse_token(&chars("PAGEDOWN")), KeyToken::Main(Key::PageDown));
    assert_eq!(parse_token(&chars("pgup")), KeyToken::Main(Key::PageUp));
    assert_eq!(parse_token(&chars("DELETE")), KeyToken::Main(Key::Delete));
    assert_eq!(parse_token(&chars("Insert")), KeyToken::Main(Key::Insert));
    assert_eq!(parse_token(&chars("numpad0")), KeyToken::Main(Key::Numpad0));
    assert_eq!(parse_token(&chars("NUMPAD9")), KeyToken::Main(Key::Numpad9));
}

#[test]
fn single_characters_lower_to_themselves() {
    assert_eq!(parse_token(&chars("W")), KeyToken::Main(Key::Unicode('w')));
    assert_eq!(parse_token(&chars("w")), KeyToken::Main(Key::Unicode('w')));
    assert_eq!(parse_token(&chars("3")), KeyToken::Main(Key::Unicode('3')));
}

#[test]
fn unknown_tokens_degrade_to_their_first_character() {
    assert_eq!(parse_token(&chars("FOO")), KeyToken::Fallback(Key::Unicode('f')));
    assert_eq!(parse_token(&chars("qx")), KeyToken::Fallback(Key::Unicode('q')));
    assert_eq!(parse_token(&chars("")), KeyToken::Nothing);
}

#[test]
fn combos_accumulate_modifiers_and_keep_the_last_main_key() {
    let (mods, main) = parse_key_combo(&chars("CTRL+S"));
    assert_eq!(mods, vec![Key::Control]);
    assert_eq!(main, Some(Key::Unicode('s')));

    let (mods, main) = parse_key_combo(&chars("SHIFT+F1"));
    assert_eq!(mods, vec![Key::Shift]);
    assert_eq!(main, Some(Key::F1));

    let (mods, main) = parse_key_combo(&chars("ctrl+shift+a"));
    assert_eq!(mods, vec![Key::Control, Key::Shift]);
    assert_eq!(main, Some(Key::Unicode('a')));

    let (mods, main) = parse_key_combo(&chars("A+B"));
    assert_eq!(mods, Vec::<Key>::new());
    assert_eq!(main, Some(Key::Unicode('b')));

    let (mods, main) = parse_key_combo(&chars("CTRL+"));
    assert_eq!(mods, vec![Key::Control]);
    assert_eq!(main, None);

    let (mods, main) = parse_key_combo(&chars(""));
    assert_eq!(mods, Vec::<Key>::new());
    assert_eq!(main, None);
}

#[test]
fn down_presses_modifiers_before_the_main_key() {
    let mods = vec![Key::Control, Key::Shift];
    let plan = key_plan(KeyAction::Down, &mods, Some(Key::Unicode('a')));
    assert_eq!(
        plan,
        vec![
            KeyEvent { key: Key::Control, direction: Direction::Press },
            KeyEvent { key: Key::Shift, direction: Direction::Press },
            KeyEvent { key: Key::Unicode('a'), direction: Direction::Press },
        ]
    );
}

#[test]
fn up_releases_the_main_key_then_modifiers_in_reverse() {
    let mods = vec![Key::Control, Key::Shift];
    let plan = key_plan(KeyAction::Up, &mods, Some(Key::Unicode('a')));
    assert_eq!(
        plan,
        vec![
            KeyEvent { key: Key::Unicode('a'), direction: Direction::Release },
            KeyEvent { key: Key::Shift, direction: Direction::Release },
            KeyEvent { key: Key::Control, direction: Direction::Release },
        ]
    );
}

#[test]
fn tap_clicks_between_press_and_reverse_release() {
    let mods = vec![Key::Control, Key::Shift];
    let plan = key_plan(KeyAction::Tap, &mods, Some(Key::F5));
    assert_eq!(
        plan,
        vec![
            KeyEvent { key: Key::Control, direction: Direction::Press },
            KeyEvent { key: Key::Shift, direction: Direction::Press },
            KeyEvent { key: Key::F5, direction: Direction::Click },
            KeyEvent { key: Key::Shift, direction: Direction::Release },
            KeyEvent { key: Key::Control, direction: Direction::Release },
        ]
    );
}

#[test]
fn plan_without_main_key_moves_only_modifiers() {
    let mods = vec![Key::Control];
    let plan = key_plan(KeyAction::Tap, &mods, None);
    assert_eq!(
        plan,
        vec![
            KeyEvent { key: Key::Control, direction: Direction::Press },
            KeyEvent { key: Key::Control, direction: Direction::Release },
        ]
    );
}
