use vstd::prelude::*;
use crate::native::NativeCall;

verus! {

/// Clears the frame: every draw up to the next swap lands on a clean frame.
pub fn clear() -> (call: NativeCall)
    ensures
        call == NativeCall::ClearFrame,
{
    NativeCall::ClearFrame
}

/// Shows the frame. Nothing drawn is visible before this.
pub fn swap_buffers() -> (call: NativeCall)
    ensures
        call == NativeCall::SwapBuffers,
{
    NativeCall::SwapBuffers
}

/// Pumps the native input events, which come back through the callbacks.
pub fn handle_input() -> (call: NativeCall)
    ensures
        call == NativeCall::HandleInput,
{
    NativeCall::HandleInput
}

} // verus!
