use bevy_tui::input::converters::character_key_code;
use bevy_tui::input::converters::convert_input_kind;
use bevy_tui::input::converters::convert_key_code;
use bevy_tui::input::converters::convert_keyboard_input;
use bevy_tui::input::converters::convert_mouse_button;
use bevy_tui::input::converters::convert_mouse_input;
use bevy_tui::input::converters::function_key_code;
use bevy_tui::input::ButtonState;
use bevy_tui::input::KeyboardInput;
use bevy_tui::input::MouseButton;
use bevy_tui::input::MouseInput;
use bevy_tui::keycode::KeyCode;
use bevy_tui::terminal::KeyEvent;
use bevy_tui::terminal::KeyEventKind;
use bevy_tui::terminal::MouseEvent;
use bevy_tui::terminal::MouseEventKind;
use bevy_tui::terminal::TerminalKeyCode;
use bevy_tui::terminal::TerminalMouseButton;

const SHIFTED_PUNCTUATION: &str = "~!@#$%^&*()_+{}|:\"<>?";

fn key_event(code: TerminalKeyCode, kind: KeyEventKind) -> KeyEvent {
    KeyEvent { code, modifiers: 0, kind }
}

fn mouse_event(kind: MouseEventKind, column: u16, row: u16) -> MouseEvent {
    MouseEvent { kind, column, row, modifiers: 0 }
}

#[test]
fn every_typable_character_translates() {
    for byte in 0x20u8..=0x7e {
        let chr = char::from(byte);
        let keys = character_key_code(chr);
        assert!(!keys.is_empty(), "no key for {chr:?}");
        assert!(keys.len() <= 2);
    }
}

#[test]
fn shifted_punctuation_is_shift_and_key() {
    for chr in SHIFTED_PUNCTUATION.chars() {
        let keys = character_key_code(chr);
        assert_eq!(keys.len(), 2, "for {chr:?}");
        assert_eq!(keys[0], KeyCode::ShiftLeft);
        assert_ne!(keys[1], KeyCode::ShiftLeft);
    }
}

#[test]
fn digits_and_their_shifted_characters() {
    assert_eq!(character_key_code('1'), vec![KeyCode::Digit1]);
    assert_eq!(character_key_code('!'), vec![KeyCode::ShiftLeft, KeyCode::Digit1]);
    assert_eq!(character_key_code('6'), vec![KeyCode::Digit6]);
    assert_eq!(character_key_code('^'), vec![KeyCode::ShiftLeft, KeyCode::Digit6]);
    assert_eq!(character_key_code('0'), vec![KeyCode::Digit0]);
    assert_eq!(character_key_code(')'), vec![KeyCode::ShiftLeft, KeyCode::Digit0]);
    assert_eq!(character_key_code('='), vec![KeyCode::Equal]);
    assert_eq!(character_key_code('+'), vec![KeyCode::ShiftLeft, KeyCode::Equal]);
}

#[test]
fn letters_in_both_cases() {
    assert_eq!(character_key_code('q'), vec![KeyCode::KeyQ]);
    assert_eq!(character_key_code('Q'), vec![KeyCode::ShiftLeft, KeyCode::KeyQ]);
    assert_eq!(character_key_code('m'), vec![KeyCode::KeyM]);
    assert_eq!(character_key_code('M'), vec![KeyCode::ShiftLeft, KeyCode::KeyM]);
    for (lower, upper) in ('a'..='z').zip('A'..='Z') {
        let plain = character_key_code(lower);
        let shifted = character_key_code(upper);
        assert_eq!(plain.len(), 1);
        assert_eq!(shifted, vec![KeyCode::ShiftLeft, plain[0]]);
    }
}

#[test]
fn punctuation_and_space() {
    assert_eq!(character_key_code(' '), vec![KeyCode::Space]);
    assert_eq!(character_key_code('`'), vec![KeyCode::Backquote]);
    assert_eq!(character_key_code('~'), vec![KeyCode::ShiftLeft, KeyCode::Backquote]);
    assert_eq!(character_key_code('\\'), vec![KeyCode::Backslash]);
    assert_eq!(character_key_code('|'), vec![KeyCode::ShiftLeft, KeyCode::Backslash]);
    assert_eq!(character_key_code('\''), vec![KeyCode::Quote]);
    assert_eq!(character_key_code('"'), vec![KeyCode::ShiftLeft, KeyCode::Quote]);
    assert_eq!(character_key_code('/'), vec![KeyCode::Slash]);
    assert_eq!(character_key_code('?'), vec![KeyCode::ShiftLeft, KeyCode::Slash]);
}

#[test]
fn distinct_characters_give_distinct_keys() {
    let all: Vec<Vec<KeyCode>> = (0x20u8..=0x7e).map(|b| character_key_code(char::from(b))).collect();
    for (i, a) in all.iter().enumerate() {
        for b in all.iter().skip(i + 1) {
            assert_ne!(a, b);
        }
    }
}

#[test]
fn unknown_characters_are_dropped() {
    assert!(character_key_code('é').is_empty());
    assert!(character_key_code('あ').is_empty());
    assert!(character_key_code('\u{7f}').is_empty());
    assert!(character_key_code('\n').is_empty());
    assert!(character_key_code('\0').is_empty());
    let event = key_event(TerminalKeyCode::Char('ß'), KeyEventKind::Press);
    assert!(convert_keyboard_input(event).is_empty());
}

#[test]
fn function_keys_one_to_twenty_four() {
    assert_eq!(function_key_code(1), Some(KeyCode::F1));
    assert_eq!(function_key_code(12), Some(KeyCode::F12));
    assert_eq!(function_key_code(24), Some(KeyCode::F24));
    assert_eq!(function_key_code(0), None);
    assert_eq!(function_key_code(25), None);
    assert_eq!(function_key_code(255), None);
    for num in 1u8..=24 {
        let key = function_key_code(num).unwrap();
        assert_eq!(key.code(), KeyCode::F1.code() + u16::from(num) - 1);
        assert_eq!(convert_key_code(TerminalKeyCode::F(num)), vec![key]);
    }
    assert!(convert_key_code(TerminalKeyCode::F(25)).is_empty());
}

#[test]
fn named_keys_translate() {
    assert_eq!(convert_key_code(TerminalKeyCode::Enter), vec![KeyCode::Enter]);
    assert_eq!(convert_key_code(TerminalKeyCode::Left), vec![KeyCode::ArrowLeft]);
    assert_eq!(convert_key_code(TerminalKeyCode::Right), vec![KeyCode::ArrowRight]);
    assert_eq!(convert_key_code(TerminalKeyCode::Up), vec![KeyCode::ArrowUp]);
    assert_eq!(convert_key_code(TerminalKeyCode::Down), vec![KeyCode::ArrowDown]);
    assert_eq!(convert_key_code(TerminalKeyCode::Home), vec![KeyCode::Home]);
    assert_eq!(convert_key_code(TerminalKeyCode::End), vec![KeyCode::End]);
    assert_eq!(convert_key_code(TerminalKeyCode::PageUp), vec![KeyCode::PageUp]);
    assert_eq!(convert_key_code(TerminalKeyCode::PageDown), vec![KeyCode::PageDown]);
    assert_eq!(convert_key_code(TerminalKeyCode::Insert), vec![KeyCode::Insert]);
    assert_eq!(convert_key_code(TerminalKeyCode::Delete), vec![KeyCode::Delete]);
    assert_eq!(convert_key_code(TerminalKeyCode::Esc), vec![KeyCode::Escape]);
    assert_eq!(convert_key_code(TerminalKeyCode::Backspace), vec![KeyCode::Backspace]);
    assert_eq!(convert_key_code(TerminalKeyCode::Tab), vec![KeyCode::Tab]);
    assert_eq!(convert_key_code(TerminalKeyCode::Char('a')), vec![KeyCode::KeyA]);
}

#[test]
fn back_tab_is_shift_and_tab() {
    assert_eq!(
        convert_key_code(TerminalKeyCode::BackTab),
        vec![KeyCode::ShiftLeft, KeyCode::Tab]
    );
    let events = convert_keyboard_input(key_event(TerminalKeyCode::BackTab, KeyEventKind::Release));
    assert_eq!(
        events,
        vec![
            KeyboardInput { key_code: KeyCode::ShiftLeft, state: ButtonState::Released },
            KeyboardInput { key_code: KeyCode::Tab, state: ButtonState::Released },
        ]
    );
}

#[test]
fn other_terminal_keys_are_dropped() {
    for code in [
        TerminalKeyCode::Null,
        TerminalKeyCode::CapsLock,
        TerminalKeyCode::ScrollLock,
        TerminalKeyCode::NumLock,
        TerminalKeyCode::PrintScreen,
        TerminalKeyCode::Pause,
        TerminalKeyCode::Menu,
        TerminalKeyCode::KeypadBegin,
        TerminalKeyCode::Media,
        TerminalKeyCode::Modifier,
    ] {
        assert!(convert_key_code(code).is_empty());
    }
}

#[test]
fn repeat_counts_as_pressed() {
    assert_eq!(convert_input_kind(KeyEventKind::Press), ButtonState::Pressed);
    assert_eq!(convert_input_kind(KeyEventKind::Repeat), ButtonState::Pressed);
    assert_eq!(convert_input_kind(KeyEventKind::Release), ButtonState::Released);
}

#[test]
fn key_events_carry_the_state_of_their_kind() {
    let pressed = convert_keyboard_input(key_event(TerminalKeyCode::Char('!'), KeyEventKind::Repeat));
    assert_eq!(
        pressed,
        vec![
            KeyboardInput { key_code: KeyCode::ShiftLeft, state: ButtonState::Pressed },
            KeyboardInput { key_code: KeyCode::Digit1, state: ButtonState::Pressed },
        ]
    );
    let released = convert_keyboard_input(key_event(TerminalKeyCode::Char('x'), KeyEventKind::Release));
    assert_eq!(
        released,
        vec![KeyboardInput { key_code: KeyCode::KeyX, state: ButtonState::Released }]
    );
}

#[test]
fn mouse_buttons_translate() {
    assert_eq!(convert_mouse_button(TerminalMouseButton::Left), MouseButton::Left);
    assert_eq!(convert_mouse_button(TerminalMouseButton::Middle), MouseButton::Middle);
    assert_eq!(convert_mouse_button(TerminalMouseButton::Right), MouseButton::Right);
}

#[test]
fn mouse_events_translate() {
    let down = mouse_event(MouseEventKind::Down(TerminalMouseButton::Left), 3, 4);
    assert_eq!(
        convert_mouse_input(down),
        Some(MouseInput::Button(MouseButton::Left, ButtonState::Pressed, [3, 4]))
    );
    let drag = mouse_event(MouseEventKind::Drag(TerminalMouseButton::Right), 7, 0);
    assert_eq!(
        convert_mouse_input(drag),
        Some(MouseInput::Button(MouseButton::Right, ButtonState::Pressed, [7, 0]))
    );
    let up = mouse_event(MouseEventKind::Up(TerminalMouseButton::Middle), 65535, 1);
    assert_eq!(
        convert_mouse_input(up),
        Some(MouseInput::Button(MouseButton::Middle, ButtonState::Released, [65535, 1]))
    );
    let moved = mouse_event(MouseEventKind::Moved, 12, 5);
    assert_eq!(convert_mouse_input(moved), Some(MouseInput::Movement([12, 5])));
}

#[test]
fn scrolling_is_dropped() {
    for kind in [
        MouseEventKind::ScrollDown,
        MouseEventKind::ScrollUp,
        MouseEventKind::ScrollLeft,
        MouseEventKind::ScrollRight,
    ] {
        assert_eq!(convert_mouse_input(mouse_event(kind, 1, 1)), None);
    }
}

#[test]
fn key_codes_and_numbers_correspond() {
    let mut seen = Vec::new();
    for code in 0u16..bevy_tui::keycode::KEY_COUNT {
        let key = KeyCode::from_code(code).unwrap();
        assert_eq!(key.code(), code);
        assert!(!seen.contains(&key));
        seen.push(key);
    }
    assert_eq!(KeyCode::from_code(bevy_tui::keycode::KEY_COUNT), None);
    assert_eq!(KeyCode::from_code(u16::MAX), None);
    assert_eq!(KeyCode::Backquote.code(), 0);
    assert_eq!(KeyCode::SuperRight.code(), bevy_tui::keycode::KEY_COUNT - 1);
}
