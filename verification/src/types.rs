use vstd::prelude::*;

verus! {

/// A pixel coordinate as application code writes it.
pub type Coordinate = u16;

/// A pixel location.
#[derive(Clone, Copy, Debug, PartialEq, Eq, Structural)]
pub struct Point {
    pub x: Coordinate,
    pub y: Coordinate,
}

/// A width and a height, signed as the native core has them.
#[derive(Clone, Copy, Debug, PartialEq, Eq, Structural)]
pub struct Size {
    pub width: i32,
    pub height: i32,
}

/// Four 8-bit channels, in the order in which they lie in memory.
#[derive(Clone, Copy, Debug, PartialEq, Eq, Structural)]
pub struct Color(pub u8, pub u8, pub u8, pub u8);

/// A vertex in the native core's layout: two signed 16-bit coordinates.
#[derive(Clone, Copy, Debug, PartialEq, Eq, Structural)]
pub struct RDPoint {
    pub x: i16,
    pub y: i16,
}

/// What can go wrong in this layer.
#[derive(Clone, Copy, Debug, PartialEq, Eq, Structural)]
pub enum DrawError {
    /// A text argument holds a zero byte.
    InvalidText,
    /// A handler is installed already.
    AlreadyInitialized,
    /// An event arrived while no handler was installed.
    NoHandlerInstalled,
    /// Window setup returned this non-zero status.
    NativeSetupFailed(i32),
}

} // verus!
