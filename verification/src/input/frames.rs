//! What holds of the pressed keys after a frame, whatever was pressed before.

use crate::buttons::Buttons;
use crate::input::apply_key;
use crate::input::apply_keys;
use crate::input::converters::keys_of_terminal_key;
use crate::input::converters::state_of_kind;
use crate::input::converters::translate_key;
use crate::input::keyboard_frame;
use crate::input::pressed_this_frame;
use crate::input::ButtonState;
use crate::input::KeyboardInput;
use crate::keycode::KeyCode;
use crate::terminal::KeyEvent;
use crate::terminal::KeyEventKind;
use vstd::prelude::*;

verus! {

/// The state that the last event for `key` in `events` reports, if there is
/// an event for `key`.
pub open spec fn last_state(events: Seq<KeyboardInput>, key: KeyCode) -> Option<ButtonState>
    decreases events.len(),
{
    if events.len() == 0 {
        None
    } else if events.last().key_code == key {
        Some(events.last().state)
    } else {
        last_state(events.drop_last(), key)
    }
}

/// Whether every event of the frame is a press.
pub open spec fn all_pressed(events: Seq<KeyboardInput>) -> bool {
    forall|i: int| 0 <= i < events.len() ==> (#[trigger] events[i]).state == ButtonState::Pressed
}

/// Applying events in order leaves a key as its last event says, and as it
/// was where no event names it.
proof fn lemma_apply_keys_pressed(buttons: Buttons, events: Seq<KeyboardInput>, key: KeyCode)
    ensures
        apply_keys(buttons, events).pressed.contains(key.spec_code()) == match last_state(
            events,
            key,
        ) {
            Some(state) => state == ButtonState::Pressed,
            None => buttons.pressed.contains(key.spec_code()),
        },
    decreases events.len(),
{
    if events.len() > 0 {
        lemma_apply_keys_pressed(buttons, events.drop_last(), key);
        if events.last().key_code != key {
            if events.last().key_code.spec_code() == key.spec_code() {
                KeyCode::lemma_code_injective(events.last().key_code, key);
            }
        }
    }
}

/// A key is pressed in a frame if its last event there is a press, and is
/// not pressed in it if the frame has no event for it.
proof fn lemma_last_state_and_presses(events: Seq<KeyboardInput>, key: KeyCode)
    ensures
        last_state(events, key) == Some(ButtonState::Pressed) ==> pressed_this_frame(
            events,
        ).contains(key.spec_code()),
        last_state(events, key) is None ==> !pressed_this_frame(events).contains(key.spec_code()),
    decreases events.len(),
{
    if events.len() > 0 {
        let shorter = events.drop_last();
        lemma_last_state_and_presses(shorter, key);
        if last_state(events, key) == Some(ButtonState::Pressed) {
            if events.last().key_code == key {
                assert(events[events.len() - 1].state == ButtonState::Pressed);
            } else {
                let k = choose|k: int|
                    0 <= k < shorter.len() && (#[trigger] shorter[k]).state
                        == ButtonState::Pressed && shorter[k].key_code.spec_code()
                        == key.spec_code();
                assert(events[k] == shorter[k]);
            }
        }
        if last_state(events, key) is None && pressed_this_frame(events).contains(
            key.spec_code(),
        ) {
            let k = choose|k: int|
                0 <= k < events.len() && (#[trigger] events[k]).state == ButtonState::Pressed
                    && events[k].key_code.spec_code() == key.spec_code();
            KeyCode::lemma_code_injective(events[k].key_code, key);
            if k < shorter.len() {
                assert(shorter[k] == events[k]);
            }
        }
    }
}

/// After a frame, exactly those keys are down whose last event in the frame
/// is a press, whatever was down before: a later event for a key overrides
/// an earlier one, and a key without a press in the frame is released.
pub proof fn lemma_frame_keeps_last_pressed(
    before: Buttons,
    events: Seq<KeyboardInput>,
    key: KeyCode,
)
    ensures
        keyboard_frame(before, events).pressed.contains(key.spec_code()) <==> last_state(
            events,
            key,
        ) == Some(ButtonState::Pressed),
{
    lemma_apply_keys_pressed(before.clear(), events, key);
    lemma_last_state_and_presses(events, key);
}

/// Applying presses only adds keys: the keys that were down stay down, the
/// pressed ones join them, and those among them that were up count as just
/// pressed.
proof fn lemma_apply_presses(buttons: Buttons, events: Seq<KeyboardInput>)
    requires
        all_pressed(events),
    ensures
        apply_keys(buttons, events).pressed == buttons.pressed.union(pressed_this_frame(events)),
        apply_keys(buttons, events).just_pressed == buttons.just_pressed.union(
            pressed_this_frame(events).difference(buttons.pressed),
        ),
        apply_keys(buttons, events).just_released == buttons.just_released,
    decreases events.len(),
{
    let after = apply_keys(buttons, events);
    if events.len() == 0 {
        assert(pressed_this_frame(events) =~= Set::<u16>::empty());
        assert(after.pressed =~= buttons.pressed.union(pressed_this_frame(events)));
        assert(after.just_pressed =~= buttons.just_pressed.union(
            pressed_this_frame(events).difference(buttons.pressed),
        ));
    } else {
        let shorter = events.drop_last();
        let code = events.last().key_code.spec_code();
        assert(all_pressed(shorter)) by {
            assert forall|i: int| 0 <= i < shorter.len() implies (#[trigger] shorter[i]).state
                == ButtonState::Pressed by {
                assert(shorter[i] == events[i]);
            }
        }
        lemma_apply_presses(buttons, shorter);
        assert(pressed_this_frame(events) =~= pressed_this_frame(shorter).insert(code)) by {
            assert forall|c: u16| pressed_this_frame(events).contains(c) implies pressed_this_frame(
                shorter,
            ).insert(code).contains(c) by {
                let k = choose|k: int|
                    0 <= k < events.len() && (#[trigger] events[k]).state == ButtonState::Pressed
                        && events[k].key_code.spec_code() == c;
                if k < shorter.len() {
                    assert(shorter[k] == events[k]);
                }
            }
            assert forall|c: u16|
                pressed_this_frame(shorter).insert(code).contains(
                    c,
                ) implies pressed_this_frame(events).contains(c) by {
                if pressed_this_frame(shorter).contains(c) {
                    let k = choose|k: int|
                        0 <= k < shorter.len() && (#[trigger] shorter[k]).state
                            == ButtonState::Pressed && shorter[k].key_code.spec_code() == c;
                    assert(events[k] == shorter[k]);
                } else {
                    assert(events[events.len() - 1].state == ButtonState::Pressed);
                }
            }
        }
        assert(after == apply_key(apply_keys(buttons, shorter), events.last()));
        assert(after.pressed =~= buttons.pressed.union(pressed_this_frame(events)));
        assert(after.just_pressed =~= buttons.just_pressed.union(
            pressed_this_frame(events).difference(buttons.pressed),
        ));
    }
}

/// After a frame that holds presses only, the keys pressed in it are down
/// and no others. Of these, the ones that were up before count as just
/// pressed; the keys that were down before and are missing from the frame
/// count as just released. A key that is pressed frame after frame thus
/// stays down and is never reported as released.
pub proof fn lemma_frame_of_presses(before: Buttons, events: Seq<KeyboardInput>)
    requires
        all_pressed(events),
    ensures
        keyboard_frame(before, events).pressed == pressed_this_frame(events),
        keyboard_frame(before, events).just_pressed == pressed_this_frame(events).difference(
            before.pressed,
        ),
        keyboard_frame(before, events).just_released == before.pressed.difference(
            pressed_this_frame(events),
        ),
{
    lemma_apply_presses(before.clear(), events);
    let frame = keyboard_frame(before, events);
    assert(frame.pressed =~= pressed_this_frame(events));
    assert(frame.just_pressed =~= pressed_this_frame(events).difference(before.pressed));
    assert(frame.just_released =~= before.pressed.difference(pressed_this_frame(events)));
}

/// A frame that holds the translation of one pressed or repeated terminal
/// key leaves every key of the translation down. If such a key was down
/// before the frame, the frame reports no change of it: a held key that the
/// keyboard repeats is never released in between.
pub proof fn lemma_repeat_keeps_key_pressed(before: Buttons, raw: KeyEvent, i: int)
    requires
        raw.kind != KeyEventKind::Release,
        0 <= i < keys_of_terminal_key(raw.code).len(),
    ensures
        keyboard_frame(before, translate_key(raw)).pressed.contains(
            keys_of_terminal_key(raw.code)[i].spec_code(),
        ),
        before.pressed.contains(keys_of_terminal_key(raw.code)[i].spec_code()) ==> {
            &&& !keyboard_frame(before, translate_key(raw)).just_released.contains(
                keys_of_terminal_key(raw.code)[i].spec_code(),
            )
            &&& !keyboard_frame(before, translate_key(raw)).just_pressed.contains(
                keys_of_terminal_key(raw.code)[i].spec_code(),
            )
        },
{
    let events = translate_key(raw);
    assert(state_of_kind(raw.kind) == ButtonState::Pressed);
    assert(all_pressed(events));
    lemma_frame_of_presses(before, events);
    assert(events[i].state == ButtonState::Pressed);
    assert(events[i].key_code == keys_of_terminal_key(raw.code)[i]);
}

/// A frame without events releases every key: nothing is down after it, and
/// what was down before counts as just released.
pub proof fn lemma_silent_frame_releases_all(before: Buttons)
    ensures
        keyboard_frame(before, Seq::<KeyboardInput>::empty()).pressed == Set::<u16>::empty(),
        keyboard_frame(before, Seq::<KeyboardInput>::empty()).just_pressed == Set::<
            u16,
        >::empty(),
        keyboard_frame(before, Seq::<KeyboardInput>::empty()).just_released == before.pressed,
{
    let events = Seq::<KeyboardInput>::empty();
    assert(all_pressed(events));
    lemma_frame_of_presses(before, events);
    assert(pressed_this_frame(events) =~= Set::<u16>::empty());
    let frame = keyboard_frame(before, events);
    assert(frame.pressed =~= Set::<u16>::empty());
    assert(frame.just_pressed =~= Set::<u16>::empty());
    assert(frame.just_released =~= before.pressed);
}

/// A frame in which one key is pressed, then another, and then the first is
/// released leaves the second down and the first up.
pub proof fn lemma_release_follows_press(before: Buttons, first: KeyCode, second: KeyCode)
    requires
        first != second,
    ensures
        ({
            let events = seq![
                (KeyboardInput { key_code: first, state: ButtonState::Pressed }),
                (KeyboardInput { key_code: second, state: ButtonState::Pressed }),
                (KeyboardInput { key_code: first, state: ButtonState::Released }),
            ];
            &&& keyboard_frame(before, events).pressed.contains(second.spec_code())
            &&& !keyboard_frame(before, events).pressed.contains(first.spec_code())
        }),
{
    let events = seq![
        (KeyboardInput { key_code: first, state: ButtonState::Pressed }),
        (KeyboardInput { key_code: second, state: ButtonState::Pressed }),
        (KeyboardInput { key_code: first, state: ButtonState::Released }),
    ];
    lemma_frame_keeps_last_pressed(before, events, first);
    lemma_frame_keeps_last_pressed(before, events, second);
    assert(events.last().key_code == first);
    let shorter = events.drop_last();
    assert(shorter.last().key_code == second);
    assert(last_state(shorter, second) == Some(ButtonState::Pressed));
}

/// Applying events reports every change: a key that ends up down after
/// having been up counts as just pressed, one that ends up up after having
/// been down counts as just released, and nothing reported is taken back.
proof fn lemma_apply_keys_reports_changes(buttons: Buttons, events: Seq<KeyboardInput>, code: u16)
    ensures
        apply_keys(buttons, events).pressed.contains(code) && !buttons.pressed.contains(code)
            ==> apply_keys(buttons, events).just_pressed.contains(code),
        buttons.pressed.contains(code) && !apply_keys(buttons, events).pressed.contains(code)
            ==> apply_keys(buttons, events).just_released.contains(code),
        buttons.just_pressed.contains(code) ==> apply_keys(buttons, events).just_pressed.contains(
            code,
        ),
        buttons.just_released.contains(code) ==> apply_keys(
            buttons,
            events,
        ).just_released.contains(code),
    decreases events.len(),
{
    if events.len() > 0 {
        lemma_apply_keys_reports_changes(buttons, events.drop_last(), code);
    }
}

/// Whatever the frame holds, its report is complete: a key that is down
/// after the frame and was up before it counts as just pressed, and a key
/// that was down before the frame and is up after it counts as just
/// released.
pub proof fn lemma_frame_reports_changes(before: Buttons, events: Seq<KeyboardInput>, code: u16)
    ensures
        keyboard_frame(before, events).pressed.contains(code) && !before.pressed.contains(code)
            ==> keyboard_frame(before, events).just_pressed.contains(code),
        before.pressed.contains(code) && !keyboard_frame(before, events).pressed.contains(code)
            ==> keyboard_frame(before, events).just_released.contains(code),
{
    lemma_apply_keys_reports_changes(before.clear(), events, code);
}

} // verus!
