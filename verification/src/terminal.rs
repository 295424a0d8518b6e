//! Events as the terminal driver reports them, before any translation.
//!
//! These types hold, as plain values, what the driver's own event types hold,
//! so that the translation can be stated and proved over them.

use vstd::prelude::*;

verus! {

/// The modifier bit that the driver sets while shift is held.
pub const MODIFIER_SHIFT: u8 = 0x01;

/// The modifier bit that the driver sets while control is held.
pub const MODIFIER_CONTROL: u8 = 0x02;

/// The modifier bit that the driver sets while alt is held.
pub const MODIFIER_ALT: u8 = 0x04;

/// A key as the terminal names it: a named key, or the character it typed.
#[derive(Debug, Clone, Copy, PartialEq, Eq, Hash, Structural)]
pub enum TerminalKeyCode {
    Backspace,
    Enter,
    Left,
    Right,
    Up,
    Down,
    Home,
    End,
    PageUp,
    PageDown,
    Tab,
    /// Shift and tab together, which terminals report as one key.
    BackTab,
    Delete,
    Insert,
    /// A function key, by its number.
    F(u8),
    /// A key that typed this character.
    Char(char),
    Null,
    Esc,
    CapsLock,
    ScrollLock,
    NumLock,
    PrintScreen,
    Pause,
    Menu,
    KeypadBegin,
    /// One of the media keys.
    Media,
    /// A modifier key reported on its own.
    Modifier,
}

/// What happened to a key.
#[derive(Debug, Clone, Copy, PartialEq, Eq, Hash, Structural)]
pub enum KeyEventKind {
    Press,
    /// The key is still held and the keyboard repeated it.
    Repeat,
    Release,
}

/// One key interaction as the terminal reported it.
#[derive(Debug, Clone, Copy, PartialEq, Eq, Hash, Structural)]
pub struct KeyEvent {
    /// The key.
    pub code: TerminalKeyCode,
    /// The modifier bits that came with it.
    pub modifiers: u8,
    /// Whether the key went down, repeated or came up.
    pub kind: KeyEventKind,
}

/// A mouse button as the terminal names it.
#[derive(Debug, Clone, Copy, PartialEq, Eq, Hash, Structural)]
pub enum TerminalMouseButton {
    Left,
    Right,
    Middle,
}

/// What happened to the mouse.
#[derive(Debug, Clone, Copy, PartialEq, Eq, Hash, Structural)]
pub enum MouseEventKind {
    /// A button went down.
    Down(TerminalMouseButton),
    /// A button came up.
    Up(TerminalMouseButton),
    /// The mouse moved while a button was held.
    Drag(TerminalMouseButton),
    /// The mouse moved with no button held.
    Moved,
    ScrollDown,
    ScrollUp,
    ScrollLeft,
    ScrollRight,
}

/// One mouse interaction as the terminal reported it.
#[derive(Debug, Clone, Copy, PartialEq, Eq, Hash, Structural)]
pub struct MouseEvent {
    /// What happened.
    pub kind: MouseEventKind,
    /// The column of the cell it happened in.
    pub column: u16,
    /// The row of the cell it happened in.
    pub row: u16,
    /// The modifier bits that came with it.
    pub modifiers: u8,
}

/// An event of the terminal.
#[derive(Debug, Clone, PartialEq, Eq)]
pub enum TerminalEvent {
    /// The terminal window gained the focus.
    FocusGained,
    /// The terminal window lost the focus.
    FocusLost,
    /// A key was pressed, repeated or released.
    Key(KeyEvent),
    /// The mouse moved or one of its buttons changed.
    Mouse(MouseEvent),
    /// Text was pasted.
    Paste(String),
    /// The terminal now has this many columns and rows.
    Resize(u16, u16),
}

} // verus!
