use vstd::prelude::*;
use vstd::string::StringSliceAdditionalSpecFns;
use crate::marshal::{has_zero, marshal_text, pack_color, packed, terminated};
use crate::native::NativeCall;
use crate::types::{Color, DrawError, Size};

verus! {

/// Whether `len` pixels are enough for an icon of these dimensions: neither
/// dimension is negative, and there is a pixel for each place.
pub open spec fn icon_fits(len: int, dimensions: Size) -> bool {
    dimensions.width >= 0 && dimensions.height >= 0 && dimensions.width as int
        * dimensions.height as int <= len
}

/// Tells whether `len` pixels are enough for an icon of these dimensions.
pub fn icon_data_fits(len: usize, dimensions: Size) -> (fits: bool)
    ensures
        fits == icon_fits(len as int, dimensions),
{
    if dimensions.width < 0 || dimensions.height < 0 {
        return false;
    }
    let width: u64 = dimensions.width as u64;
    let height: u64 = dimensions.height as u64;
    assert(width * height <= 0x7fff_ffff * 0x7fff_ffff) by (nonlinear_arith)
        requires
            width <= 0x7fff_ffff,
            height <= 0x7fff_ffff,
    ;
    width * height <= len as u64
}

/// Sets the window's icon: each pixel is packed as a colour is, in order.
/// The native core reads one word for each place of the icon, so dimensions
/// that are negative or ask for more pixels than `data` holds are refused,
/// and no call is made.
pub fn set_icon(data: Vec<Color>, dimensions: Size) -> (call: Option<NativeCall>)
    ensures
        !icon_fits(data@.len() as int, dimensions) ==> call is None,
        icon_fits(data@.len() as int, dimensions) ==> (call matches Some(
            NativeCall::SetWindowIcon { width, height, pixels },
        ) && width == dimensions.width && height == dimensions.height && pixels@
            == data@.map_values(|c: Color| packed(c) as u32)),
{
    let n: usize = data.len();
    if !icon_data_fits(n, dimensions) {
        return None;
    }
    let mut pixels: Vec<u32> = Vec::new();
    let mut i: usize = 0;
    while i < n
        invariant
            n == data@.len(),
            i <= n,
            pixels@ == data@.take(i as int).map_values(|c: Color| packed(c) as u32),
        decreases n - i,
    {
        pixels.push(pack_color(data[i]));
        proof {
            let f = |c: Color| packed(c) as u32;
            assert(data@.take(i + 1) == data@.take(i as int).push(data@[i as int]));
            assert(data@.take(i + 1).map_values(f) == data@.take(i as int).map_values(f).push(
                f(data@[i as int]),
            ));
        }
        i += 1;
    }
    proof {
        assert(data@.take(n as int) == data@);
    }
    Some(NativeCall::SetWindowIcon { width: dimensions.width, height: dimensions.height, pixels })
}

/// Changes the window's title. A title that holds a zero byte is refused,
/// and no call is made.
pub fn change_title(title: &str) -> (result: Result<NativeCall, DrawError>)
    ensures
        has_zero(title.spec_bytes()) ==> result == Err::<NativeCall, DrawError>(
            DrawError::InvalidText,
        ),
        !has_zero(title.spec_bytes()) ==> (result matches Ok(
            NativeCall::ChangeWindowTitle { title: bytes },
        ) && bytes@ == terminated(title.spec_bytes())),
{
    match marshal_text(title) {
        Ok(bytes) => Ok(NativeCall::ChangeWindowTitle { title: bytes }),
        Err(e) => Err(e),
    }
}

} // verus!
