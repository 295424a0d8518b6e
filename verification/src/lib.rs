//! Terminal input adaptation and tick scheduling for applications that use a
//! terminal as their display and input device.
//!
//! The library translates the events of a terminal into keyboard and mouse
//! events ([`input::converters`]), keeps the sets of pressed keys and mouse
//! buttons up to date frame by frame ([`input`]), and decides when the
//! terminal is polled and when the application is updated ([`scheduler`]).
//! It touches neither the terminal nor the application: its caller does, and
//! hands it plain values.

pub mod buttons;
pub mod error;
pub mod input;
pub mod keycode;
pub mod prelude;
pub mod scheduler;
pub mod settings;
pub mod terminal;

pub use error::Error as BevyTuiError;
pub use input::RawConsoleEvent;
