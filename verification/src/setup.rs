use vstd::prelude::*;
use vstd::string::StringSliceAdditionalSpecFns;
use crate::handler::Handler;
use crate::marshal::{has_zero, marshal_text, pack_color, packed, terminated};
use crate::native::NativeCall;
use crate::registry::Registry;
use crate::types::{Color, DrawError, Size};

verus! {

/// Sets the colour that a cleared frame has.
pub fn set_background_color(color: Color) -> (call: NativeCall)
    ensures
        call == (NativeCall::SetBackgroundColor { word: packed(color) as u32 }),
{
    NativeCall::SetBackgroundColor { word: pack_color(color) }
}

/// Sets the colour of what is drawn next.
pub fn set_color(color: Color) -> (call: NativeCall)
    ensures
        call == (NativeCall::SetColor { word: packed(color) as u32 }),
{
    NativeCall::SetColor { word: pack_color(color) }
}

/// What the native core's answer to window setup means: zero is success,
/// and any other status is handed on as it came.
pub open spec fn status_meaning(status: i32) -> Result<(), DrawError> {
    if status == 0 {
        Ok(())
    } else {
        Err(DrawError::NativeSetupFailed(status))
    }
}

/// Prepares the window: checks the title, installs the handler, and says
/// which native call opens the window. A title with a zero byte is refused
/// first, and a second handler next; in both cases the registry stays as
/// it is and no call is made. Otherwise the registry then holds `handler`.
pub fn setup(registry: &mut Registry, window_title: &str, dimensions: Size, handler: Handler) -> (result:
    Result<NativeCall, DrawError>)
    ensures
        has_zero(window_title.spec_bytes()) ==> result == Err::<NativeCall, DrawError>(
            DrawError::InvalidText,
        ) && *final(registry) == *old(registry),
        !has_zero(window_title.spec_bytes()) && old(registry).is_active() ==> result == Err::<
            NativeCall,
            DrawError,
        >(DrawError::AlreadyInitialized) && *final(registry) == *old(registry),
        !has_zero(window_title.spec_bytes()) && !old(registry).is_active() ==> final(registry).handler()
            == Some(handler) && (result matches Ok(NativeCall::Setup { title, width, height })
            && title@ == terminated(window_title.spec_bytes()) && width == dimensions.width
            && height == dimensions.height),
{
    let title = match marshal_text(window_title) {
        Ok(bytes) => bytes,
        Err(e) => {
            return Err(e);
        },
    };
    match registry.install(handler) {
        Ok(()) => Ok(
            NativeCall::Setup { title, width: dimensions.width, height: dimensions.height },
        ),
        Err(e) => Err(e),
    }
}

/// Reads the status that window setup returned.
pub fn setup_outcome(status: i32) -> (outcome: Result<(), DrawError>)
    ensures
        outcome == status_meaning(status),
{
    if status == 0 {
        Ok(())
    } else {
        Err(DrawError::NativeSetupFailed(status))
    }
}

} // verus!
