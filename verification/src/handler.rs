use vstd::prelude::*;
use crate::types::Point;

verus! {

/// What an application does with the window's input events. The library
/// calls exactly one of these four methods for each event it delivers.
pub trait App: Sync {
    /// A key went down or up.
    fn handle_key(&self, keycode: u32, went_down: bool);

    /// A pointer button went down or up at `position`.
    fn handle_button(&self, position: Point, button: u32, went_down: bool);

    /// The pointer moved to `position`; `mask` holds the buttons held.
    fn handle_motion(&self, position: Point, mask: u32);

    /// The window is going away.
    fn handle_destroy(&self);
}

/// An application's handler, boxed, as the registry owns it.
pub struct Handler {
    pub app: Box<dyn App>,
}

/// A handler that ignores every event.
pub struct NoOpApp();

impl App for NoOpApp {
    fn handle_key(&self, _keycode: u32, _went_down: bool) {
    }

    fn handle_button(&self, _position: Point, _button: u32, _went_down: bool) {
    }

    fn handle_motion(&self, _position: Point, _mask: u32) {
    }

    fn handle_destroy(&self) {
    }
}

} // verus!
