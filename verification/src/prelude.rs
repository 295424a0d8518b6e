//! The items that most users of this library need, for one import.

pub use crate::error::Error as BevyTuiError;
pub use crate::input::MouseState;
pub use crate::input::WindowResized;
