//! The application's view of keyboard and mouse input, and the per-frame
//! systems that keep it up to date.

use crate::buttons::buttons_of;
use crate::buttons::clear_buttons;
use crate::buttons::press_button;
use crate::buttons::pressed_buttons;
use crate::buttons::release_button;
use crate::buttons::Buttons;
use crate::keycode::KeyCode;
use crate::terminal::TerminalEvent;
use bevy::input::ButtonInput;
use vstd::prelude::*;

pub mod converters;
pub mod frames;

verus! {

/// Whether a key or a mouse button went down or came up.
#[derive(Debug, Clone, Copy, PartialEq, Eq, Hash, Structural)]
pub enum ButtonState {
    /// The button is held down.
    Pressed,
    /// The button is not held down.
    Released,
}

/// A button of the mouse.
#[derive(Debug, Clone, Copy, PartialEq, Eq, Hash, Structural)]
pub enum MouseButton {
    Left,
    Right,
    Middle,
    Back,
    Forward,
}

impl MouseButton {
    /// The number that stands for this button wherever buttons are stored as
    /// integers. Distinct buttons have distinct codes.
    pub open spec fn spec_code(self) -> u16 {
        match self {
            MouseButton::Left => 0,
            MouseButton::Right => 1,
            MouseButton::Middle => 2,
            MouseButton::Back => 3,
            MouseButton::Forward => 4,
        }
    }

    /// Returns the button's code.
    #[verifier::when_used_as_spec(spec_code)]
    pub fn code(self) -> (c: u16)
        ensures
            c == self.spec_code(),
    {
        match self {
            MouseButton::Left => 0,
            MouseButton::Right => 1,
            MouseButton::Middle => 2,
            MouseButton::Back => 3,
            MouseButton::Forward => 4,
        }
    }
}

/// A key that went down or came up. A terminal has long applied the keyboard
/// layout when it reports a key, so there is no scan code to carry.
#[derive(Debug, Clone, Copy, PartialEq, Eq, Hash, Structural)]
pub struct KeyboardInput {
    /// The key.
    pub key_code: KeyCode,
    /// Whether it went down or came up. Few terminals report a key coming up.
    pub state: ButtonState,
}

/// Something the mouse did, with the terminal cell (column, row) it did it in.
#[derive(Debug, Clone, Copy, PartialEq, Eq)]
pub enum MouseInput {
    /// A button went down or came up.
    Button(MouseButton, ButtonState, [u16; 2]),
    /// The mouse moved.
    Movement([u16; 2]),
}

impl MouseInput {
    /// The cell the event happened in.
    pub open spec fn spec_location(&self) -> [u16; 2] {
        match *self {
            MouseInput::Button(_, _, location) => location,
            MouseInput::Movement(location) => location,
        }
    }

    /// Returns the cell the event happened in.
    #[verifier::when_used_as_spec(spec_location)]
    pub fn location(&self) -> (location: [u16; 2])
        ensures
            location == self.spec_location(),
    {
        match self {
            MouseInput::Button(_, _, location) => *location,
            MouseInput::Movement(location) => *location,
        }
    }
}

/// How far the mouse moved between two events, in cells along each axis.
#[derive(Debug, Clone, Copy, PartialEq, Eq, Hash, Structural)]
pub struct MouseMotion {
    /// Columns moved; positive to the right.
    pub delta_x: i32,
    /// Rows moved; positive downward.
    pub delta_y: i32,
}

/// Where the mouse was last seen.
#[derive(Debug, Clone, Copy)]
pub struct MouseState {
    last_location: Option<[u16; 2]>,
}

impl MouseState {
    /// The cell of the last mouse event, if there has been one.
    pub closed spec fn spec_last_location(&self) -> Option<[u16; 2]> {
        self.last_location
    }

    /// Returns the cell of the last mouse event, if there has been one.
    #[verifier::when_used_as_spec(spec_last_location)]
    pub fn last_location(&self) -> (location: Option<[u16; 2]>)
        ensures
            location == self.spec_last_location(),
    {
        self.last_location
    }
}

impl Default for MouseState {
    /// A state in which the mouse has not been seen yet.
    fn default() -> (state: Self)
        ensures
            state.spec_last_location() is None,
    {
        MouseState { last_location: None }
    }
}

/// Notice that the terminal changed its size.
#[derive(Debug, Clone, Copy, PartialEq, Eq, Hash, Structural)]
pub struct WindowResized;

/// The state of the keys after one keyboard event.
pub open spec fn apply_key(buttons: Buttons, event: KeyboardInput) -> Buttons {
    match event.state {
        ButtonState::Pressed => buttons.press(event.key_code.spec_code()),
        ButtonState::Released => buttons.release(event.key_code.spec_code()),
    }
}

/// The state of the keys after the events of a frame, applied in the order
/// in which they arrived.
pub open spec fn apply_keys(buttons: Buttons, events: Seq<KeyboardInput>) -> Buttons
    decreases events.len(),
{
    if events.len() == 0 {
        buttons
    } else {
        apply_key(apply_keys(buttons, events.drop_last()), events.last())
    }
}

/// The codes of the keys for which the frame holds a press.
pub open spec fn pressed_this_frame(events: Seq<KeyboardInput>) -> Set<u16> {
    Set::new(
        |code: u16|
            exists|i: int|
                0 <= i < events.len() && (#[trigger] events[i]).state == ButtonState::Pressed
                    && events[i].key_code.spec_code() == code,
    )
}

/// The state of the keys after a frame. The frame starts with nothing just
/// pressed or just released, and its events are applied in order. A terminal
/// does not reliably say when a key comes up, so a key that was down before
/// the frame and for which the frame holds no press is then released.
pub open spec fn keyboard_frame(before: Buttons, events: Seq<KeyboardInput>) -> Buttons {
    let applied = apply_keys(before.clear(), events);
    let stale = before.pressed.difference(pressed_this_frame(events));
    Buttons {
        pressed: applied.pressed.difference(stale),
        just_pressed: applied.just_pressed,
        just_released: applied.just_released.union(applied.pressed.intersect(stale)),
    }
}

/// A frame with one more event holds one more press, if the event is one.
proof fn lemma_pressed_this_frame_push(events: Seq<KeyboardInput>, event: KeyboardInput)
    ensures
        pressed_this_frame(events.push(event)) == if event.state == ButtonState::Pressed {
            pressed_this_frame(events).insert(event.key_code.spec_code())
        } else {
            pressed_this_frame(events)
        },
{
    let longer = events.push(event);
    let expected = if event.state == ButtonState::Pressed {
        pressed_this_frame(events).insert(event.key_code.spec_code())
    } else {
        pressed_this_frame(events)
    };
    assert forall|code: u16| pressed_this_frame(longer).contains(code) implies expected.contains(
        code,
    ) by {
        let k = choose|k: int|
            0 <= k < longer.len() && (#[trigger] longer[k]).state == ButtonState::Pressed
                && longer[k].key_code.spec_code() == code;
        if k < events.len() {
            assert(events[k] == longer[k]);
        }
    }
    assert forall|code: u16| expected.contains(code) implies pressed_this_frame(longer).contains(
        code,
    ) by {
        if pressed_this_frame(events).contains(code) {
            let k = choose|k: int|
                0 <= k < events.len() && (#[trigger] events[k]).state == ButtonState::Pressed
                    && events[k].key_code.spec_code() == code;
            assert(longer[k] == events[k]);
        } else {
            assert(longer[events.len() as int] == event);
        }
    }
    assert(pressed_this_frame(longer) =~= expected);
}

/// Tells whether `codes` holds `code`.
fn holds_code(codes: &Vec<u16>, code: u16) -> (found: bool)
    ensures
        found == codes@.contains(code),
{
    let mut i: usize = 0;
    while i < codes.len()
        invariant
            i <= codes.len(),
            forall|j: int| 0 <= j < i ==> codes@[j] != code,
        decreases codes.len() - i,
    {
        if codes[i] == code {
            return true;
        }
        i += 1;
    }
    false
}

/// Brings the pressed keys up to date with the keyboard events of one frame.
///
/// Keys are held in `key_input` by their codes. The events are applied in
/// order, and every key that was down before and was not pressed again in
/// this frame is released, as if the terminal had said so.
pub fn keyboard_input_system(
    key_input: &mut ButtonInput<u16>,
    keyboard_input_events: &Vec<KeyboardInput>,
)
    ensures
        buttons_of(*final(key_input)) == keyboard_frame(
            buttons_of(*old(key_input)),
            keyboard_input_events@,
        ),
{
    let ghost before = buttons_of(*key_input);
    let ghost events = keyboard_input_events@;
    clear_buttons(key_input);
    assert(buttons_of(*key_input) == before.clear());

    let currently_pressed = pressed_buttons(key_input);
    let mut pressed_events: Vec<u16> = Vec::new();

    let mut i: usize = 0;
    while i < keyboard_input_events.len()
        invariant
            i <= keyboard_input_events.len(),
            events == keyboard_input_events@,
            buttons_of(*key_input) == apply_keys(before.clear(), events.take(i as int)),
            pressed_events@.to_set() == pressed_this_frame(events.take(i as int)),
        decreases keyboard_input_events.len() - i,
    {
        let event = keyboard_input_events[i];
        let ghost seen = pressed_events@;
        match event.state {
            ButtonState::Pressed => {
                pressed_events.push(event.key_code.code());
                press_button(key_input, event.key_code.code());
            },
            ButtonState::Released => {
                release_button(key_input, event.key_code.code());
            },
        }
        i += 1;
        proof {
            let shorter = events.take(i as int - 1);
            assert(events.take(i as int) =~= shorter.push(event));
            assert(shorter.push(event).drop_last() =~= shorter);
            lemma_pressed_this_frame_push(shorter, event);
            seen.lemma_push_to_set_commute(event.key_code.spec_code());
        }
    }
    assert(events.take(i as int) =~= events);

    let ghost applied = buttons_of(*key_input);
    let ghost seen = pressed_this_frame(events);
    let mut j: usize = 0;
    while j < currently_pressed.len()
        invariant
            j <= currently_pressed.len(),
            seen == pressed_this_frame(events),
            pressed_events@.to_set() == seen,
            buttons_of(*key_input).pressed == applied.pressed.difference(
                currently_pressed@.take(j as int).to_set().difference(seen),
            ),
            buttons_of(*key_input).just_pressed == applied.just_pressed,
            buttons_of(*key_input).just_released == applied.just_released.union(
                applied.pressed.intersect(
                    currently_pressed@.take(j as int).to_set().difference(seen),
                ),
            ),
        decreases currently_pressed.len() - j,
    {
        let released_key = currently_pressed[j];
        let ghost stale = currently_pressed@.take(j as int).to_set().difference(seen);
        if !holds_code(&pressed_events, released_key) {
            release_button(key_input, released_key);
        }
        j += 1;
        proof {
            let next = currently_pressed@.take(j as int).to_set().difference(seen);
            assert(currently_pressed@.take(j as int) =~= currently_pressed@.take(
                j as int - 1,
            ).push(released_key));
            currently_pressed@.take(j as int - 1).lemma_push_to_set_commute(released_key);
            if seen.contains(released_key) {
                assert(next =~= stale);
            } else {
                assert(next =~= stale.insert(released_key));
            }
            assert(buttons_of(*key_input).pressed =~= applied.pressed.difference(next));
            assert(buttons_of(*key_input).just_released =~= applied.just_released.union(
                applied.pressed.intersect(next),
            ));
        }
    }
    proof {
        assert(currently_pressed@.take(j as int) =~= currently_pressed@);
        let stale = before.pressed.difference(seen);
        assert(currently_pressed@.to_set().difference(seen) =~= stale);
    }
}

/// The state of the mouse buttons after one mouse event. A movement changes
/// no button.
pub open spec fn apply_mouse_event(buttons: Buttons, event: MouseInput) -> Buttons {
    match event {
        MouseInput::Button(button, ButtonState::Pressed, _) => buttons.press(button.spec_code()),
        MouseInput::Button(button, ButtonState::Released, _) => buttons.release(
            button.spec_code(),
        ),
        MouseInput::Movement(_) => buttons,
    }
}

/// The state of the mouse buttons after the events of a frame, applied in
/// the order in which they arrived.
pub open spec fn apply_mouse_events(buttons: Buttons, events: Seq<MouseInput>) -> Buttons
    decreases events.len(),
{
    if events.len() == 0 {
        buttons
    } else {
        apply_mouse_event(apply_mouse_events(buttons, events.drop_last()), events.last())
    }
}

/// The way from one cell to another: the new cell less the old one, along
/// each axis.
pub open spec fn motion_between(from: [u16; 2], to: [u16; 2]) -> MouseMotion {
    MouseMotion { delta_x: (to[0] - from[0]) as i32, delta_y: (to[1] - from[1]) as i32 }
}

/// Where the mouse was last seen once `events` are through: at the last of
/// them, or where it was before if there is none.
pub open spec fn location_after(
    last: Option<[u16; 2]>,
    events: Seq<MouseInput>,
) -> Option<[u16; 2]> {
    if events.len() == 0 {
        last
    } else {
        Some(events.last().spec_location())
    }
}

/// The motions that the mouse events of a frame give rise to: one for each
/// event that has a location before it, from that location to its own. The
/// first event has one only if the mouse was seen before the frame.
pub open spec fn mouse_motions(last: Option<[u16; 2]>, events: Seq<MouseInput>) -> Seq<
    MouseMotion,
> {
    match last {
        Some(from) => Seq::new(
            events.len(),
            |i: int|
                motion_between(
                    if i == 0 {
                        from
                    } else {
                        events[i - 1].spec_location()
                    },
                    events[i].spec_location(),
                ),
        ),
        None => if events.len() == 0 {
            Seq::empty()
        } else {
            Seq::new(
                (events.len() - 1) as nat,
                |i: int| motion_between(events[i].spec_location(), events[i + 1].spec_location()),
            )
        },
    }
}

/// Computes the way from one cell to another.
pub fn motion_delta(from: [u16; 2], to: [u16; 2]) -> (motion: MouseMotion)
    ensures
        motion == motion_between(from, to),
{
    MouseMotion {
        delta_x: to[0] as i32 - from[0] as i32,
        delta_y: to[1] as i32 - from[1] as i32,
    }
}

/// Brings the pressed mouse buttons and the mouse's last location up to date
/// with the mouse events of one frame, and returns the motions that the
/// events stand for, in their order.
///
/// Buttons are held in `mouse_input` by their codes. Unlike a key, a button
/// stays down until the terminal reports that it came up.
pub fn mouse_input_system(
    mouse_input: &mut ButtonInput<u16>,
    mouse_state: &mut MouseState,
    mouse_input_events: &Vec<MouseInput>,
) -> (motions: Vec<MouseMotion>)
    ensures
        buttons_of(*final(mouse_input)) == apply_mouse_events(
            buttons_of(*old(mouse_input)).clear(),
            mouse_input_events@,
        ),
        final(mouse_state).spec_last_location() == location_after(
            old(mouse_state).spec_last_location(),
            mouse_input_events@,
        ),
        motions@ == mouse_motions(old(mouse_state).spec_last_location(), mouse_input_events@),
{
    let ghost before = buttons_of(*mouse_input);
    let ghost last = mouse_state.last_location;
    let ghost events = mouse_input_events@;
    clear_buttons(mouse_input);
    assert(buttons_of(*mouse_input) == before.clear());

    let mut motions: Vec<MouseMotion> = Vec::new();
    assert(motions@ =~= mouse_motions(last, events.take(0)));
    let mut i: usize = 0;
    while i < mouse_input_events.len()
        invariant
            i <= mouse_input_events.len(),
            events == mouse_input_events@,
            buttons_of(*mouse_input) == apply_mouse_events(before.clear(), events.take(i as int)),
            mouse_state.last_location == location_after(last, events.take(i as int)),
            motions@ == mouse_motions(last, events.take(i as int)),
        decreases mouse_input_events.len() - i,
    {
        let event = mouse_input_events[i];
        let new_location = event.location();

        if let Some(last_location) = mouse_state.last_location {
            motions.push(motion_delta(last_location, new_location));
        }
        mouse_state.last_location = Some(new_location);

        if let MouseInput::Button(btn, state, _) = event {
            match state {
                ButtonState::Pressed => press_button(mouse_input, btn.code()),
                ButtonState::Released => release_button(mouse_input, btn.code()),
            }
        }
        i += 1;
        proof {
            let shorter = events.take(i as int - 1);
            let longer = events.take(i as int);
            assert(longer.drop_last() =~= shorter);
            assert(longer.last() == event);
            assert(motions@ =~= mouse_motions(last, longer));
        }
    }
    assert(events.take(i as int) =~= events);
    motions
}

/// An event of the terminal, published as it came. Text input wants these:
/// they keep the case of letters and characters beyond the US keyboard.
#[derive(Debug, Clone, PartialEq, Eq)]
pub struct RawConsoleEvent(pub TerminalEvent);

/// The queues that input events are published into until a frame takes them.
#[derive(Debug, Clone)]
pub struct EventQueues {
    /// Keyboard events, oldest first.
    pub keyboard: Vec<KeyboardInput>,
    /// Mouse events, oldest first.
    pub mouse: Vec<MouseInput>,
    /// Every event of the terminal, untranslated, oldest first.
    pub raw: Vec<RawConsoleEvent>,
}

impl EventQueues {
    /// Makes three empty queues.
    pub fn new() -> (queues: Self)
        ensures
            queues.keyboard@ == Seq::<KeyboardInput>::empty(),
            queues.mouse@ == Seq::<MouseInput>::empty(),
            queues.raw@ == Seq::<RawConsoleEvent>::empty(),
    {
        EventQueues { keyboard: Vec::new(), mouse: Vec::new(), raw: Vec::new() }
    }
}

/// The keyboard events that an event of the terminal is published as.
pub open spec fn keyboard_events_of(event: TerminalEvent) -> Seq<KeyboardInput> {
    match event {
        TerminalEvent::Key(raw) => converters::translate_key(raw),
        _ => Seq::empty(),
    }
}

/// The mouse events that an event of the terminal is published as.
pub open spec fn mouse_events_of(event: TerminalEvent) -> Seq<MouseInput> {
    match event {
        TerminalEvent::Mouse(raw) => match converters::translate_mouse(raw) {
            Some(translated) => seq![translated],
            None => Seq::empty(),
        },
        _ => Seq::empty(),
    }
}

/// Publishes one event of the terminal: its translation goes to the end of
/// the keyboard or the mouse queue, and the event itself, whatever it is, to
/// the end of the raw queue. Focus, paste and resize events have no
/// translation.
pub fn event_handler(queues: &mut EventQueues, event: TerminalEvent)
    ensures
        final(queues).keyboard@ == old(queues).keyboard@ + keyboard_events_of(event),
        final(queues).mouse@ == old(queues).mouse@ + mouse_events_of(event),
        final(queues).raw@ == old(queues).raw@.push(RawConsoleEvent(event)),
{
    match &event {
        TerminalEvent::FocusGained | TerminalEvent::FocusLost => {},
        TerminalEvent::Key(raw) => {
            let mut translated = converters::convert_keyboard_input(*raw);
            queues.keyboard.append(&mut translated);
        },
        TerminalEvent::Mouse(raw) => {
            if let Some(translated) = converters::convert_mouse_input(*raw) {
                queues.mouse.push(translated);
            }
        },
        TerminalEvent::Paste(_) => {},
        TerminalEvent::Resize(_, _) => {},
    }
    assert(queues.keyboard@ =~= old(queues).keyboard@ + keyboard_events_of(event));
    assert(queues.mouse@ =~= old(queues).mouse@ + mouse_events_of(event));
    queues.raw.push(RawConsoleEvent(event));
}

} // verus!
