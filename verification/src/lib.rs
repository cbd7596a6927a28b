//! Typed front end for a small native 2D rendering core.
//!
//! The library turns points, sizes, colours and text into the exact scalar
//! arguments of the native entry points, and routes native input events to
//! the single installed application handler. It makes no native call itself:
//! each operation says which call is due, as a [`NativeCall`], and the caller
//! makes the calls in that order.

pub mod types;
pub mod marshal;
pub mod handler;
pub mod registry;
pub mod native;
pub mod setup;
pub mod frame;
pub mod primitives;
pub mod window;
pub mod text;

pub use handler::{App, Handler, NoOpApp};
pub use marshal::{marshal_text, pack_color, unpack_color};
pub use native::NativeCall;
pub use registry::{Event, HandleButton, HandleDestroy, HandleKey, HandleMotion, Registry};
pub use setup::{set_background_color, set_color, setup, setup_outcome};
pub use types::{Color, Coordinate, DrawError, Point, RDPoint, Size};
