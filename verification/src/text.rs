use vstd::prelude::*;
use vstd::string::StringSliceAdditionalSpecFns;
use crate::marshal::{has_zero, marshal_text, narrow_coordinate, terminated, wrap_i16};
use crate::native::NativeCall;
use crate::types::{DrawError, Point};

verus! {

/// Moves the pen, from which the next text is drawn.
pub fn set_pen_position(position: Point) -> (call: NativeCall)
    ensures
        call == (NativeCall::SetPenPosition { pen_x: position.x as u32, pen_y: position.y as u32 }),
{
    NativeCall::SetPenPosition { pen_x: position.x as u32, pen_y: position.y as u32 }
}

/// Draws text at the pen position. The scale keeps its 16 bits. Text that
/// holds a zero byte is refused, and no call is made.
pub fn draw(text: &str, scale: u16) -> (result: Result<NativeCall, DrawError>)
    ensures
        has_zero(text.spec_bytes()) ==> result == Err::<NativeCall, DrawError>(
            DrawError::InvalidText,
        ),
        !has_zero(text.spec_bytes()) ==> (result matches Ok(
            NativeCall::DrawText { text: bytes, scale: native_scale },
        ) && bytes@ == terminated(text.spec_bytes()) && native_scale as int == wrap_i16(
            scale as int,
        )),
{
    match marshal_text(text) {
        Ok(bytes) => Ok(NativeCall::DrawText { text: bytes, scale: narrow_coordinate(scale) }),
        Err(e) => Err(e),
    }
}

/// Asks for the size that text would take at this scale. Text that holds a
/// zero byte is refused, and no call is made.
pub fn get_extents(text: &str, scale: u16) -> (result: Result<NativeCall, DrawError>)
    ensures
        has_zero(text.spec_bytes()) ==> result == Err::<NativeCall, DrawError>(
            DrawError::InvalidText,
        ),
        !has_zero(text.spec_bytes()) ==> (result matches Ok(
            NativeCall::GetTextExtents { text: bytes, textsize },
        ) && bytes@ == terminated(text.spec_bytes()) && textsize as int == scale as int),
{
    match marshal_text(text) {
        Ok(bytes) => Ok(NativeCall::GetTextExtents { text: bytes, textsize: scale as i32 }),
        Err(e) => Err(e),
    }
}

} // verus!
