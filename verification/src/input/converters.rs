//! Translation of terminal keys and mouse events into the application's own
//! vocabulary of keys, buttons and press states.

use crate::input::KeyboardInput;
use crate::input::MouseInput;
use crate::input::ButtonState;
use crate::input::MouseButton;
use crate::keycode::KeyCode;
use crate::terminal::KeyEvent;
use crate::terminal::KeyEventKind;
use crate::terminal::MouseEvent;
use crate::terminal::MouseEventKind;
use crate::terminal::TerminalKeyCode;
use crate::terminal::TerminalMouseButton;
use vstd::prelude::*;

verus! {

/// The key that types `c` on a US keyboard with no modifier held, if there
/// is one.
pub open spec fn plain_key(c: char) -> Option<KeyCode> {
    match c {
        ' ' => Some(KeyCode::Space),
        '`' => Some(KeyCode::Backquote),
        '1' => Some(KeyCode::Digit1),
        '2' => Some(KeyCode::Digit2),
        '3' => Some(KeyCode::Digit3),
        '4' => Some(KeyCode::Digit4),
        '5' => Some(KeyCode::Digit5),
        '6' => Some(KeyCode::Digit6),
        '7' => Some(KeyCode::Digit7),
        '8' => Some(KeyCode::Digit8),
        '9' => Some(KeyCode::Digit9),
        '0' => Some(KeyCode::Digit0),
        '-' => Some(KeyCode::Minus),
        '=' => Some(KeyCode::Equal),
        'q' => Some(KeyCode::KeyQ),
        'w' => Some(KeyCode::KeyW),
        'e' => Some(KeyCode::KeyE),
        'r' => Some(KeyCode::KeyR),
        't' => Some(KeyCode::KeyT),
        'y' => Some(KeyCode::KeyY),
        'u' => Some(KeyCode::KeyU),
        'i' => Some(KeyCode::KeyI),
        'o' => Some(KeyCode::KeyO),
        'p' => Some(KeyCode::KeyP),
        '[' => Some(KeyCode::BracketLeft),
        ']' => Some(KeyCode::BracketRight),
        '\\' => Some(KeyCode::Backslash),
        'a' => Some(KeyCode::KeyA),
        's' => Some(KeyCode::KeyS),
        'd' => Some(KeyCode::KeyD),
        'f' => Some(KeyCode::KeyF),
        'g' => Some(KeyCode::KeyG),
        'h' => Some(KeyCode::KeyH),
        'j' => Some(KeyCode::KeyJ),
        'k' => Some(KeyCode::KeyK),
        'l' => Some(KeyCode::KeyL),
        ';' => Some(KeyCode::Semicolon),
        '\'' => Some(KeyCode::Quote),
        'z' => Some(KeyCode::KeyZ),
        'x' => Some(KeyCode::KeyX),
        'c' => Some(KeyCode::KeyC),
        'v' => Some(KeyCode::KeyV),
        'b' => Some(KeyCode::KeyB),
        'n' => Some(KeyCode::KeyN),
        'm' => Some(KeyCode::KeyM),
        ',' => Some(KeyCode::Comma),
        '.' => Some(KeyCode::Period),
        '/' => Some(KeyCode::Slash),
        _ => None,
    }
}

/// For a character that a US keyboard types with shift held, the character
/// that the same key types without it.
pub open spec fn shift_base(c: char) -> Option<char> {
    match c {
        '~' => Some('`'),
        '!' => Some('1'),
        '@' => Some('2'),
        '#' => Some('3'),
        '$' => Some('4'),
        '%' => Some('5'),
        '^' => Some('6'),
        '&' => Some('7'),
        '*' => Some('8'),
        '(' => Some('9'),
        ')' => Some('0'),
        '_' => Some('-'),
        '+' => Some('='),
        'Q' => Some('q'),
        'W' => Some('w'),
        'E' => Some('e'),
        'R' => Some('r'),
        'T' => Some('t'),
        'Y' => Some('y'),
        'U' => Some('u'),
        'I' => Some('i'),
        'O' => Some('o'),
        'P' => Some('p'),
        '{' => Some('['),
        '}' => Some(']'),
        '|' => Some('\\'),
        'A' => Some('a'),
        'S' => Some('s'),
        'D' => Some('d'),
        'F' => Some('f'),
        'G' => Some('g'),
        'H' => Some('h'),
        'J' => Some('j'),
        'K' => Some('k'),
        'L' => Some('l'),
        ':' => Some(';'),
        '"' => Some('\''),
        'Z' => Some('z'),
        'X' => Some('x'),
        'C' => Some('c'),
        'V' => Some('v'),
        'B' => Some('b'),
        'N' => Some('n'),
        'M' => Some('m'),
        '<' => Some(','),
        '>' => Some('.'),
        '?' => Some('/'),
        _ => None,
    }
}

/// The characters that a US keyboard can type: space through `~`.
pub open spec fn is_typable(c: char) -> bool {
    ' ' <= c && c <= '~'
}

/// The characters that a US keyboard types with shift held and that are not
/// letters.
pub open spec fn is_shifted_punctuation(c: char) -> bool {
    shift_base(c) is Some && !('A' <= c && c <= 'Z')
}

/// The keys that go down together to type `c`: the key alone, shift and then
/// the key, or nothing where a US keyboard cannot type `c`.
pub open spec fn keys_of_char(c: char) -> Seq<KeyCode> {
    match plain_key(c) {
        Some(key) => seq![key],
        None => match shift_base(c) {
            Some(base) => match plain_key(base) {
                Some(key) => seq![KeyCode::ShiftLeft, key],
                None => seq![],
            },
            None => seq![],
        },
    }
}

/// The key that types `chr`, and whether shift is held with it.
fn typed_key(chr: char) -> (r: Option<(bool, KeyCode)>)
    ensures
        r matches Some((shifted, key)) ==> if shifted {
            plain_key(chr) is None && shift_base(chr) is Some && plain_key(
                shift_base(chr).unwrap(),
            ) == Some(key)
        } else {
            plain_key(chr) == Some(key)
        },
        r is None ==> plain_key(chr) is None && shift_base(chr) is None,
{
    match chr {
        ' ' => Some((false, KeyCode::Space)),
        '`' => Some((false, KeyCode::Backquote)),
        '~' => Some((true, KeyCode::Backquote)),
        '1' => Some((false, KeyCode::Digit1)),
        '!' => Some((true, KeyCode::Digit1)),
        '2' => Some((false, KeyCode::Digit2)),
        '@' => Some((true, KeyCode::Digit2)),
        '3' => Some((false, KeyCode::Digit3)),
        '#' => Some((true, KeyCode::Digit3)),
        '4' => Some((false, KeyCode::Digit4)),
        '$' => Some((true, KeyCode::Digit4)),
        '5' => Some((false, KeyCode::Digit5)),
        '%' => Some((true, KeyCode::Digit5)),
        '6' => Some((false, KeyCode::Digit6)),
        '^' => Some((true, KeyCode::Digit6)),
        '7' => Some((false, KeyCode::Digit7)),
        '&' => Some((true, KeyCode::Digit7)),
        '8' => Some((false, KeyCode::Digit8)),
        '*' => Some((true, KeyCode::Digit8)),
        '9' => Some((false, KeyCode::Digit9)),
        '(' => Some((true, KeyCode::Digit9)),
        '0' => Some((false, KeyCode::Digit0)),
        ')' => Some((true, KeyCode::Digit0)),
        '-' => Some((false, KeyCode::Minus)),
        '_' => Some((true, KeyCode::Minus)),
        '=' => Some((false, KeyCode::Equal)),
        '+' => Some((true, KeyCode::Equal)),
        'q' => Some((false, KeyCode::KeyQ)),
        'Q' => Some((true, KeyCode::KeyQ)),
        'w' => Some((false, KeyCode::KeyW)),
        'W' => Some((true, KeyCode::KeyW)),
        'e' => Some((false, KeyCode::KeyE)),
        'E' => Some((true, KeyCode::KeyE)),
        'r' => Some((false, KeyCode::KeyR)),
        'R' => Some((true, KeyCode::KeyR)),
        't' => Some((false, KeyCode::KeyT)),
        'T' => Some((true, KeyCode::KeyT)),
        'y' => Some((false, KeyCode::KeyY)),
        'Y' => Some((true, KeyCode::KeyY)),
        'u' => Some((false, KeyCode::KeyU)),
        'U' => Some((true, KeyCode::KeyU)),
        'i' => Some((false, KeyCode::KeyI)),
        'I' => Some((true, KeyCode::KeyI)),
        'o' => Some((false, KeyCode::KeyO)),
        'O' => Some((true, KeyCode::KeyO)),
        'p' => Some((false, KeyCode::KeyP)),
        'P' => Some((true, KeyCode::KeyP)),
        '[' => Some((false, KeyCode::BracketLeft)),
        '{' => Some((true, KeyCode::BracketLeft)),
        ']' => Some((false, KeyCode::BracketRight)),
        '}' => Some((true, KeyCode::BracketRight)),
        '\\' => Some((false, KeyCode::Backslash)),
        '|' => Some((true, KeyCode::Backslash)),
        'a' => Some((false, KeyCode::KeyA)),
        'A' => Some((true, KeyCode::KeyA)),
        's' => Some((false, KeyCode::KeyS)),
        'S' => Some((true, KeyCode::KeyS)),
        'd' => Some((false, KeyCode::KeyD)),
        'D' => Some((true, KeyCode::KeyD)),
        'f' => Some((false, KeyCode::KeyF)),
        'F' => Some((true, KeyCode::KeyF)),
        'g' => Some((false, KeyCode::KeyG)),
        'G' => Some((true, KeyCode::KeyG)),
        'h' => Some((false, KeyCode::KeyH)),
        'H' => Some((true, KeyCode::KeyH)),
        'j' => Some((false, KeyCode::KeyJ)),
        'J' => Some((true, KeyCode::KeyJ)),
        'k' => Some((false, KeyCode::KeyK)),
        'K' => Some((true, KeyCode::KeyK)),
        'l' => Some((false, KeyCode::KeyL)),
        'L' => Some((true, KeyCode::KeyL)),
        ';' => Some((false, KeyCode::Semicolon)),
        ':' => Some((true, KeyCode::Semicolon)),
        '\'' => Some((false, KeyCode::Quote)),
        '"' => Some((true, KeyCode::Quote)),
        'z' => Some((false, KeyCode::KeyZ)),
        'Z' => Some((true, KeyCode::KeyZ)),
        'x' => Some((false, KeyCode::KeyX)),
        'X' => Some((true, KeyCode::KeyX)),
        'c' => Some((false, KeyCode::KeyC)),
        'C' => Some((true, KeyCode::KeyC)),
        'v' => Some((false, KeyCode::KeyV)),
        'V' => Some((true, KeyCode::KeyV)),
        'b' => Some((false, KeyCode::KeyB)),
        'B' => Some((true, KeyCode::KeyB)),
        'n' => Some((false, KeyCode::KeyN)),
        'N' => Some((true, KeyCode::KeyN)),
        'm' => Some((false, KeyCode::KeyM)),
        'M' => Some((true, KeyCode::KeyM)),
        ',' => Some((false, KeyCode::Comma)),
        '<' => Some((true, KeyCode::Comma)),
        '.' => Some((false, KeyCode::Period)),
        '>' => Some((true, KeyCode::Period)),
        '/' => Some((false, KeyCode::Slash)),
        '?' => Some((true, KeyCode::Slash)),
        _ => None,
    }
}

/// Translates a typed character into the keys that type it. A character
/// outside the typable set gives no key.
pub fn character_key_code(chr: char) -> (keys: Vec<KeyCode>)
    ensures
        keys@ == keys_of_char(chr),
{
    let mut keys: Vec<KeyCode> = Vec::new();
    match typed_key(chr) {
        Some((shifted, key)) => {
            if shifted {
                keys.push(KeyCode::ShiftLeft);
            }
            keys.push(key);
        },
        None => {},
    }
    assert(keys@ =~= keys_of_char(chr));
    keys
}

/// The key that the terminal's function key number `num` stands for. Only
/// F1 to F24 exist.
pub open spec fn function_key(num: u8) -> Option<KeyCode> {
    match num {
        1 => Some(KeyCode::F1),
        2 => Some(KeyCode::F2),
        3 => Some(KeyCode::F3),
        4 => Some(KeyCode::F4),
        5 => Some(KeyCode::F5),
        6 => Some(KeyCode::F6),
        7 => Some(KeyCode::F7),
        8 => Some(KeyCode::F8),
        9 => Some(KeyCode::F9),
        10 => Some(KeyCode::F10),
        11 => Some(KeyCode::F11),
        12 => Some(KeyCode::F12),
        13 => Some(KeyCode::F13),
        14 => Some(KeyCode::F14),
        15 => Some(KeyCode::F15),
        16 => Some(KeyCode::F16),
        17 => Some(KeyCode::F17),
        18 => Some(KeyCode::F18),
        19 => Some(KeyCode::F19),
        20 => Some(KeyCode::F20),
        21 => Some(KeyCode::F21),
        22 => Some(KeyCode::F22),
        23 => Some(KeyCode::F23),
        24 => Some(KeyCode::F24),
        _ => None,
    }
}

/// Translates the number of a function key into its key.
pub fn function_key_code(num: u8) -> (key: Option<KeyCode>)
    ensures
        key == function_key(num),
        key is Some <==> 1 <= num <= 24,
{
    match num {
        1 => Some(KeyCode::F1),
        2 => Some(KeyCode::F2),
        3 => Some(KeyCode::F3),
        4 => Some(KeyCode::F4),
        5 => Some(KeyCode::F5),
        6 => Some(KeyCode::F6),
        7 => Some(KeyCode::F7),
        8 => Some(KeyCode::F8),
        9 => Some(KeyCode::F9),
        10 => Some(KeyCode::F10),
        11 => Some(KeyCode::F11),
        12 => Some(KeyCode::F12),
        13 => Some(KeyCode::F13),
        14 => Some(KeyCode::F14),
        15 => Some(KeyCode::F15),
        16 => Some(KeyCode::F16),
        17 => Some(KeyCode::F17),
        18 => Some(KeyCode::F18),
        19 => Some(KeyCode::F19),
        20 => Some(KeyCode::F20),
        21 => Some(KeyCode::F21),
        22 => Some(KeyCode::F22),
        23 => Some(KeyCode::F23),
        24 => Some(KeyCode::F24),
        _ => None,
    }
}

/// The press state that a kind of key event stands for. A repeat re-asserts
/// that the key is down.
pub open spec fn state_of_kind(kind: KeyEventKind) -> ButtonState {
    match kind {
        KeyEventKind::Press => ButtonState::Pressed,
        KeyEventKind::Repeat => ButtonState::Pressed,
        KeyEventKind::Release => ButtonState::Released,
    }
}

/// Translates the kind of a key event into a press state.
pub fn convert_input_kind(kind: KeyEventKind) -> (state: ButtonState)
    ensures
        state == state_of_kind(kind),
{
    match kind {
        KeyEventKind::Press | KeyEventKind::Repeat => ButtonState::Pressed,
        KeyEventKind::Release => ButtonState::Released,
    }
}

/// The keys that a terminal key stands for, in the order in which they go
/// down: one key, shift and a key, or none where the terminal key has no
/// counterpart.
pub open spec fn keys_of_terminal_key(code: TerminalKeyCode) -> Seq<KeyCode> {
    match code {
        TerminalKeyCode::Enter => seq![KeyCode::Enter],
        TerminalKeyCode::Left => seq![KeyCode::ArrowLeft],
        TerminalKeyCode::Right => seq![KeyCode::ArrowRight],
        TerminalKeyCode::Up => seq![KeyCode::ArrowUp],
        TerminalKeyCode::Down => seq![KeyCode::ArrowDown],
        TerminalKeyCode::Home => seq![KeyCode::Home],
        TerminalKeyCode::End => seq![KeyCode::End],
        TerminalKeyCode::PageUp => seq![KeyCode::PageUp],
        TerminalKeyCode::PageDown => seq![KeyCode::PageDown],
        TerminalKeyCode::Insert => seq![KeyCode::Insert],
        TerminalKeyCode::Esc => seq![KeyCode::Escape],
        TerminalKeyCode::Backspace => seq![KeyCode::Backspace],
        TerminalKeyCode::Tab => seq![KeyCode::Tab],
        TerminalKeyCode::Delete => seq![KeyCode::Delete],
        TerminalKeyCode::BackTab => seq![KeyCode::ShiftLeft, KeyCode::Tab],
        TerminalKeyCode::F(num) => match function_key(num) {
            Some(key) => seq![key],
            None => seq![],
        },
        TerminalKeyCode::Char(c) => keys_of_char(c),
        _ => seq![],
    }
}

/// Translates a terminal key into the keys it stands for.
pub fn convert_key_code(key_code: TerminalKeyCode) -> (keys: Vec<KeyCode>)
    ensures
        keys@ == keys_of_terminal_key(key_code),
{
    let mut keys: Vec<KeyCode> = Vec::new();
    match key_code {
        TerminalKeyCode::Enter => {
            keys.push(KeyCode::Enter);
        },
        TerminalKeyCode::Left => {
            keys.push(KeyCode::ArrowLeft);
        },
        TerminalKeyCode::Right => {
            keys.push(KeyCode::ArrowRight);
        },
        TerminalKeyCode::Up => {
            keys.push(KeyCode::ArrowUp);
        },
        TerminalKeyCode::Down => {
            keys.push(KeyCode::ArrowDown);
        },
        TerminalKeyCode::Home => {
            keys.push(KeyCode::Home);
        },
        TerminalKeyCode::End => {
            keys.push(KeyCode::End);
        },
        TerminalKeyCode::PageUp => {
            keys.push(KeyCode::PageUp);
        },
        TerminalKeyCode::PageDown => {
            keys.push(KeyCode::PageDown);
        },
        TerminalKeyCode::Insert => {
            keys.push(KeyCode::Insert);
        },
        TerminalKeyCode::Esc => {
            keys.push(KeyCode::Escape);
        },
        TerminalKeyCode::Backspace => {
            keys.push(KeyCode::Backspace);
        },
        TerminalKeyCode::Tab => {
            keys.push(KeyCode::Tab);
        },
        TerminalKeyCode::Delete => {
            keys.push(KeyCode::Delete);
        },
        TerminalKeyCode::BackTab => {
            keys.push(KeyCode::ShiftLeft);
            keys.push(KeyCode::Tab);
        },
        TerminalKeyCode::F(num) => {
            if let Some(key) = function_key_code(num) {
                keys.push(key);
            }
        },
        TerminalKeyCode::Char(ch) => {
            keys = character_key_code(ch);
        },
        // The remaining terminal keys have no counterpart.
        _ => {},
    }
    assert(keys@ =~= keys_of_terminal_key(key_code));
    keys
}

/// The keyboard events that a terminal key event stands for: one for each
/// key of [`keys_of_terminal_key`], in its order, all with the state of the
/// event's kind.
pub open spec fn translate_key(raw: KeyEvent) -> Seq<KeyboardInput> {
    keys_of_terminal_key(raw.code).map_values(
        |key: KeyCode| (KeyboardInput { key_code: key, state: state_of_kind(raw.kind) }),
    )
}

/// Translates a terminal key event into keyboard events.
pub fn convert_keyboard_input(keyboard_input: KeyEvent) -> (events: Vec<KeyboardInput>)
    ensures
        events@ == translate_key(keyboard_input),
{
    let button_state = convert_input_kind(keyboard_input.kind);
    let keys = convert_key_code(keyboard_input.code);
    let mut events: Vec<KeyboardInput> = Vec::new();
    let mut i: usize = 0;
    while i < keys.len()
        invariant
            i <= keys.len(),
            button_state == state_of_kind(keyboard_input.kind),
            keys@ == keys_of_terminal_key(keyboard_input.code),
            events@ == translate_key(keyboard_input).take(i as int),
        decreases keys.len() - i,
    {
        events.push(KeyboardInput { key_code: keys[i], state: button_state });
        i += 1;
        assert(events@ =~= translate_key(keyboard_input).take(i as int));
    }
    assert(events@ =~= translate_key(keyboard_input));
    events
}

/// The mouse button that a terminal mouse button stands for.
pub open spec fn button_of_terminal(button: TerminalMouseButton) -> MouseButton {
    match button {
        TerminalMouseButton::Left => MouseButton::Left,
        TerminalMouseButton::Middle => MouseButton::Middle,
        TerminalMouseButton::Right => MouseButton::Right,
    }
}

/// Translates a terminal mouse button.
pub fn convert_mouse_button(button: TerminalMouseButton) -> (converted: MouseButton)
    ensures
        converted == button_of_terminal(button),
{
    match button {
        TerminalMouseButton::Left => MouseButton::Left,
        TerminalMouseButton::Middle => MouseButton::Middle,
        TerminalMouseButton::Right => MouseButton::Right,
    }
}

/// The mouse event that a terminal mouse event stands for, at the cell
/// (column, row) it happened in. A button that goes down or drags is pressed,
/// one that comes up is released. Scrolling has no counterpart.
pub open spec fn translate_mouse(raw: MouseEvent) -> Option<MouseInput> {
    let location = [raw.column, raw.row];
    match raw.kind {
        MouseEventKind::Down(button) => Some(
            MouseInput::Button(button_of_terminal(button), ButtonState::Pressed, location),
        ),
        MouseEventKind::Drag(button) => Some(
            MouseInput::Button(button_of_terminal(button), ButtonState::Pressed, location),
        ),
        MouseEventKind::Up(button) => Some(
            MouseInput::Button(button_of_terminal(button), ButtonState::Released, location),
        ),
        MouseEventKind::Moved => Some(MouseInput::Movement(location)),
        _ => None,
    }
}

/// Translates a terminal mouse event. Scroll events are dropped: `None`.
pub fn convert_mouse_input(mouse_input: MouseEvent) -> (converted: Option<MouseInput>)
    ensures
        converted == translate_mouse(mouse_input),
{
    let location = [mouse_input.column, mouse_input.row];
    match mouse_input.kind {
        MouseEventKind::Down(btn) | MouseEventKind::Drag(btn) => Some(
            MouseInput::Button(convert_mouse_button(btn), ButtonState::Pressed, location),
        ),
        MouseEventKind::Up(btn) => Some(
            MouseInput::Button(convert_mouse_button(btn), ButtonState::Released, location),
        ),
        MouseEventKind::Moved => Some(MouseInput::Movement(location)),
        MouseEventKind::ScrollDown | MouseEventKind::ScrollUp => None,
        MouseEventKind::ScrollLeft | MouseEventKind::ScrollRight => None,
    }
}

/// Every typable character translates into at least one key, and a shifted
/// punctuation character into exactly two, of which the first is shift.
pub proof fn lemma_typable_characters_translate(c: char)
    requires
        is_typable(c),
    ensures
        keys_of_char(c).len() >= 1,
        is_shifted_punctuation(c) ==> keys_of_char(c).len() == 2 && keys_of_char(c)[0]
            == KeyCode::ShiftLeft,
{
}

/// A key event for a typable character translates into as many keyboard
/// events as the character takes keys, at least one, each with the state of
/// the event's kind; for shifted punctuation the first of two is shift.
pub proof fn lemma_typable_key_events_translate(raw: KeyEvent)
    requires
        raw.code matches TerminalKeyCode::Char(c) && is_typable(c),
    ensures
        translate_key(raw).len() >= 1,
        forall|i: int|
            0 <= i < translate_key(raw).len() ==> (#[trigger] translate_key(raw)[i]).state
                == state_of_kind(raw.kind),
        raw.code matches TerminalKeyCode::Char(c) && is_shifted_punctuation(c) ==> translate_key(
            raw,
        ).len() == 2 && translate_key(raw)[0].key_code == KeyCode::ShiftLeft,
{
    if let TerminalKeyCode::Char(c) = raw.code {
        lemma_typable_characters_translate(c);
    }
}

/// A character outside the typable set translates into no key, and a key
/// event for it into no keyboard event.
pub proof fn lemma_untypable_characters_are_dropped(c: char, raw: KeyEvent)
    requires
        !is_typable(c),
        raw.code == TerminalKeyCode::Char(c),
    ensures
        keys_of_char(c) == Seq::<KeyCode>::empty(),
        translate_key(raw) == Seq::<KeyboardInput>::empty(),
{
    assert(keys_of_char(c) =~= Seq::<KeyCode>::empty());
    assert(translate_key(raw) =~= Seq::<KeyboardInput>::empty());
}

/// No two characters translate into the same keys: from the keys, the typed
/// character can be told.
pub proof fn lemma_characters_translate_apart(a: char, b: char)
    requires
        keys_of_char(a).len() >= 1,
        keys_of_char(a) == keys_of_char(b),
    ensures
        a == b,
{
    let ka = keys_of_char(a);
    let kb = keys_of_char(b);
    assert(ka.len() == kb.len());
    assert(ka[0] == kb[0]);
    if ka.len() == 2 {
        assert(ka[1] == kb[1]);
    }
}

/// A terminal key event translates into at most two keyboard events, and two
/// only where shift leads. All of them carry the state of the event's kind.
pub proof fn lemma_translation_is_short(raw: KeyEvent)
    ensures
        translate_key(raw).len() <= 2,
        translate_key(raw).len() == 2 ==> translate_key(raw)[0].key_code == KeyCode::ShiftLeft,
        forall|i: int|
            0 <= i < translate_key(raw).len() ==> (#[trigger] translate_key(raw)[i]).state
                == state_of_kind(raw.kind),
{
}

/// No two terminal keys translate into the same keys: every terminal key
/// that has a translation can be told from it.
pub proof fn lemma_terminal_keys_translate_apart(a: TerminalKeyCode, b: TerminalKeyCode)
    requires
        keys_of_terminal_key(a).len() >= 1,
        keys_of_terminal_key(a) == keys_of_terminal_key(b),
    ensures
        a == b,
{
    let ka = keys_of_terminal_key(a);
    let kb = keys_of_terminal_key(b);
    assert(ka.len() == kb.len());
    assert(ka[0] == kb[0]);
    if ka.len() == 2 {
        assert(ka[1] == kb[1]);
    }
    if let TerminalKeyCode::Char(ca) = a {
        if let TerminalKeyCode::Char(cb) = b {
            lemma_characters_translate_apart(ca, cb);
        }
    }
}

/// The terminal key that stands for `key` alone, if there is one. There is
/// none for the modifiers: the terminal reports shift only together with the
/// key it modifies, and the other modifiers not at all.
pub open spec fn terminal_key_of(key: KeyCode) -> Option<TerminalKeyCode> {
    match key {
        KeyCode::Enter => Some(TerminalKeyCode::Enter),
        KeyCode::ArrowLeft => Some(TerminalKeyCode::Left),
        KeyCode::ArrowRight => Some(TerminalKeyCode::Right),
        KeyCode::ArrowUp => Some(TerminalKeyCode::Up),
        KeyCode::ArrowDown => Some(TerminalKeyCode::Down),
        KeyCode::Home => Some(TerminalKeyCode::Home),
        KeyCode::End => Some(TerminalKeyCode::End),
        KeyCode::PageUp => Some(TerminalKeyCode::PageUp),
        KeyCode::PageDown => Some(TerminalKeyCode::PageDown),
        KeyCode::Insert => Some(TerminalKeyCode::Insert),
        KeyCode::Escape => Some(TerminalKeyCode::Esc),
        KeyCode::Backspace => Some(TerminalKeyCode::Backspace),
        KeyCode::Tab => Some(TerminalKeyCode::Tab),
        KeyCode::Delete => Some(TerminalKeyCode::Delete),
        KeyCode::F1 => Some(TerminalKeyCode::F(1)),
        KeyCode::F2 => Some(TerminalKeyCode::F(2)),
        KeyCode::F3 => Some(TerminalKeyCode::F(3)),
        KeyCode::F4 => Some(TerminalKeyCode::F(4)),
        KeyCode::F5 => Some(TerminalKeyCode::F(5)),
        KeyCode::F6 => Some(TerminalKeyCode::F(6)),
        KeyCode::F7 => Some(TerminalKeyCode::F(7)),
        KeyCode::F8 => Some(TerminalKeyCode::F(8)),
        KeyCode::F9 => Some(TerminalKeyCode::F(9)),
        KeyCode::F10 => Some(TerminalKeyCode::F(10)),
        KeyCode::F11 => Some(TerminalKeyCode::F(11)),
        KeyCode::F12 => Some(TerminalKeyCode::F(12)),
        KeyCode::F13 => Some(TerminalKeyCode::F(13)),
        KeyCode::F14 => Some(TerminalKeyCode::F(14)),
        KeyCode::F15 => Some(TerminalKeyCode::F(15)),
        KeyCode::F16 => Some(TerminalKeyCode::F(16)),
        KeyCode::F17 => Some(TerminalKeyCode::F(17)),
        KeyCode::F18 => Some(TerminalKeyCode::F(18)),
        KeyCode::F19 => Some(TerminalKeyCode::F(19)),
        KeyCode::F20 => Some(TerminalKeyCode::F(20)),
        KeyCode::F21 => Some(TerminalKeyCode::F(21)),
        KeyCode::F22 => Some(TerminalKeyCode::F(22)),
        KeyCode::F23 => Some(TerminalKeyCode::F(23)),
        KeyCode::F24 => Some(TerminalKeyCode::F(24)),
        KeyCode::Space => Some(TerminalKeyCode::Char(' ')),
        KeyCode::Backquote => Some(TerminalKeyCode::Char('`')),
        KeyCode::Digit1 => Some(TerminalKeyCode::Char('1')),
        KeyCode::Digit2 => Some(TerminalKeyCode::Char('2')),
        KeyCode::Digit3 => Some(TerminalKeyCode::Char('3')),
        KeyCode::Digit4 => Some(TerminalKeyCode::Char('4')),
        KeyCode::Digit5 => Some(TerminalKeyCode::Char('5')),
        KeyCode::Digit6 => Some(TerminalKeyCode::Char('6')),
        KeyCode::Digit7 => Some(TerminalKeyCode::Char('7')),
        KeyCode::Digit8 => Some(TerminalKeyCode::Char('8')),
        KeyCode::Digit9 => Some(TerminalKeyCode::Char('9')),
        KeyCode::Digit0 => Some(TerminalKeyCode::Char('0')),
        KeyCode::Minus => Some(TerminalKeyCode::Char('-')),
        KeyCode::Equal => Some(TerminalKeyCode::Char('=')),
        KeyCode::KeyQ => Some(TerminalKeyCode::Char('q')),
        KeyCode::KeyW => Some(TerminalKeyCode::Char('w')),
        KeyCode::KeyE => Some(TerminalKeyCode::Char('e')),
        KeyCode::KeyR => Some(TerminalKeyCode::Char('r')),
        KeyCode::KeyT => Some(TerminalKeyCode::Char('t')),
        KeyCode::KeyY => Some(TerminalKeyCode::Char('y')),
        KeyCode::KeyU => Some(TerminalKeyCode::Char('u')),
        KeyCode::KeyI => Some(TerminalKeyCode::Char('i')),
        KeyCode::KeyO => Some(TerminalKeyCode::Char('o')),
        KeyCode::KeyP => Some(TerminalKeyCode::Char('p')),
        KeyCode::BracketLeft => Some(TerminalKeyCode::Char('[')),
        KeyCode::BracketRight => Some(TerminalKeyCode::Char(']')),
        KeyCode::Backslash => Some(TerminalKeyCode::Char('\\')),
        KeyCode::KeyA => Some(TerminalKeyCode::Char('a')),
        KeyCode::KeyS => Some(TerminalKeyCode::Char('s')),
        KeyCode::KeyD => Some(TerminalKeyCode::Char('d')),
        KeyCode::KeyF => Some(TerminalKeyCode::Char('f')),
        KeyCode::KeyG => Some(TerminalKeyCode::Char('g')),
        KeyCode::KeyH => Some(TerminalKeyCode::Char('h')),
        KeyCode::KeyJ => Some(TerminalKeyCode::Char('j')),
        KeyCode::KeyK => Some(TerminalKeyCode::Char('k')),
        KeyCode::KeyL => Some(TerminalKeyCode::Char('l')),
        KeyCode::Semicolon => Some(TerminalKeyCode::Char(';')),
        KeyCode::Quote => Some(TerminalKeyCode::Char('\'')),
        KeyCode::KeyZ => Some(TerminalKeyCode::Char('z')),
        KeyCode::KeyX => Some(TerminalKeyCode::Char('x')),
        KeyCode::KeyC => Some(TerminalKeyCode::Char('c')),
        KeyCode::KeyV => Some(TerminalKeyCode::Char('v')),
        KeyCode::KeyB => Some(TerminalKeyCode::Char('b')),
        KeyCode::KeyN => Some(TerminalKeyCode::Char('n')),
        KeyCode::KeyM => Some(TerminalKeyCode::Char('m')),
        KeyCode::Comma => Some(TerminalKeyCode::Char(',')),
        KeyCode::Period => Some(TerminalKeyCode::Char('.')),
        KeyCode::Slash => Some(TerminalKeyCode::Char('/')),
        _ => None,
    }
}

/// The terminal key of a key translates into that key alone.
proof fn lemma_terminal_key_translates_back(key: KeyCode)
    ensures
        terminal_key_of(key) matches Some(back) ==> keys_of_terminal_key(back) == seq![key],
{
    match terminal_key_of(key) {
        Some(TerminalKeyCode::Char(c)) => {
            assert(plain_key(c) == Some(key));
        },
        Some(TerminalKeyCode::F(num)) => {
            assert(function_key(num) == Some(key));
        },
        _ => {},
    }
}

/// The key that a character types without shift has that character as its
/// terminal key.
proof fn lemma_plain_key_has_terminal_key(c: char)
    ensures
        plain_key(c) matches Some(key) ==> terminal_key_of(key) == Some(TerminalKeyCode::Char(c)),
{
}

/// Translation can be undone. Every key but a modifier has a terminal key
/// that translates into it alone, and a terminal key that translates into
/// one key is the terminal key of that key.
pub proof fn lemma_translation_round_trip(key: KeyCode, code: TerminalKeyCode)
    ensures
        terminal_key_of(key) matches Some(back) ==> keys_of_terminal_key(back) == seq![key],
        terminal_key_of(key) is None <==> (key == KeyCode::ShiftLeft || key == KeyCode::ShiftRight
            || key == KeyCode::ControlLeft || key == KeyCode::ControlRight || key
            == KeyCode::AltLeft || key == KeyCode::AltRight || key == KeyCode::SuperLeft || key
            == KeyCode::SuperRight),
        keys_of_terminal_key(code).len() == 1 ==> terminal_key_of(keys_of_terminal_key(code)[0])
            == Some(code),
{
    lemma_terminal_key_translates_back(key);
    if keys_of_terminal_key(code).len() == 1 {
        match code {
            TerminalKeyCode::Char(c) => {
                lemma_plain_key_has_terminal_key(c);
                assert(plain_key(c) is Some);
                assert(keys_of_terminal_key(code)[0] == plain_key(c).unwrap());
            },
            TerminalKeyCode::F(num) => {
                assert(function_key(num) is Some);
                assert(keys_of_terminal_key(code)[0] == function_key(num).unwrap());
            },
            _ => {},
        }
    }
}

} // verus!
