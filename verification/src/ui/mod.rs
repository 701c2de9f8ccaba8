//! What the control panel decides, apart from how it is drawn.

pub mod fields;
pub mod overlay;

pub use overlay::{Click, FocusField, OverlayAction, OverlayState, OverlayView, UiInput};
pub use fields::split_three;
