use vstd::prelude::*;
use crate::types::RDPoint;

verus! {

/// One call of the native core, with the arguments as the core takes them.
/// The library decides which call to make and with what; the caller makes
/// it, in the order in which the calls were asked for.
#[derive(Debug, PartialEq, Eq)]
pub enum NativeCall {
    /// Store the background colour word.
    SetBackgroundColor { word: u32 },
    /// Set the drawing colour.
    SetColor { word: u32 },
    /// Open the window. `title` ends in its zero byte.
    Setup { title: Vec<u8>, width: i32, height: i32 },
    /// Set the window's icon from packed pixels.
    SetWindowIcon { width: i32, height: i32, pixels: Vec<u32> },
    /// Change the window's title. `title` ends in its zero byte.
    ChangeWindowTitle { title: Vec<u8> },
    /// Draw one pixel.
    TackPixel { x: i16, y: i16 },
    /// Draw a line segment.
    TackSegment { x1: i16, y1: i16, x2: i16, y2: i16 },
    /// Draw a filled rectangle.
    TackRectangle { x1: i16, y1: i16, x2: i16, y2: i16 },
    /// Draw a filled polygon with `verts` vertices.
    TackPoly { points: Vec<RDPoint>, verts: i32 },
    /// Clear the frame.
    ClearFrame,
    /// Show the frame.
    SwapBuffers,
    /// Pump the input events.
    HandleInput,
    /// Store the pen position.
    SetPenPosition { pen_x: u32, pen_y: u32 },
    /// Draw text at the pen position. `text` ends in its zero byte.
    DrawText { text: Vec<u8>, scale: i16 },
    /// Measure text. `text` ends in its zero byte.
    GetTextExtents { text: Vec<u8>, textsize: i32 },
}

} // verus!
