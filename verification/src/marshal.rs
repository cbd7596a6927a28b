use vstd::prelude::*;
use vstd::string::StringSliceAdditionalSpecFns;
use vstd::string::StrSliceExecFns;
use crate::types::{Color, DrawError, Point, RDPoint};

verus! {

/// The low 16 bits of `n`, read as an unsigned number.
pub open spec fn wrap_u16(n: int) -> int {
    n % 65536
}

/// The low 16 bits of `n`, read as a two's complement number.
pub open spec fn wrap_i16(n: int) -> int {
    if n % 65536 < 32768 {
        n % 65536
    } else {
        n % 65536 - 65536
    }
}

/// The low 32 bits of `n`, read as an unsigned number.
pub open spec fn wrap_u32(n: int) -> int {
    n % 4294967296
}

/// The low 32 bits of `n`, read as a two's complement number.
pub open spec fn wrap_i32(n: int) -> int {
    if n % 4294967296 < 2147483648 {
        n % 4294967296
    } else {
        n % 4294967296 - 4294967296
    }
}

/// The 32-bit word whose bytes, lowest first, are the four channels.
pub open spec fn packed(c: Color) -> int {
    c.0 as int + 256 * (c.1 as int) + 65536 * (c.2 as int) + 16777216 * (c.3 as int)
}

/// The colour whose channels are the bytes of `word`, lowest first.
pub open spec fn unpacked(word: int) -> Color {
    Color(
        (word % 256) as u8,
        (word / 256 % 256) as u8,
        (word / 65536 % 256) as u8,
        (word / 16777216 % 256) as u8,
    )
}

/// A point in the native layout: each coordinate keeps its 16 bits.
pub open spec fn native_point(p: Point) -> RDPoint {
    RDPoint { x: wrap_i16(p.x as int) as i16, y: wrap_i16(p.y as int) as i16 }
}

/// Text as the native core reads it: its bytes, then one zero byte.
pub open spec fn terminated(bytes: Seq<u8>) -> Seq<u8> {
    bytes.push(0u8)
}

/// Whether a zero byte occurs in `bytes`.
pub open spec fn has_zero(bytes: Seq<u8>) -> bool {
    exists|i: int| 0 <= i < bytes.len() && bytes[i] == 0u8
}

/// Packs a colour into the native 32-bit word. The first channel is the
/// lowest byte and the fourth the highest, which is how the four bytes of a
/// colour lie in a word on a little-endian machine.
pub fn pack_color(color: Color) -> (word: u32)
    ensures
        word as int == packed(color),
{
    let b0: u32 = color.0 as u32;
    let b1: u32 = color.1 as u32;
    let b2: u32 = color.2 as u32;
    let b3: u32 = color.3 as u32;
    b0 + 256 * b1 + 65536 * b2 + 16777216 * b3
}

/// Splits a native 32-bit word into its four channels, lowest byte first.
pub fn unpack_color(word: u32) -> (color: Color)
    ensures
        color == unpacked(word as int),
        packed(color) == word as int,
{
    proof {
        lemma_unpack_pack(word);
    }
    Color(
        (word % 256) as u8,
        (word / 256 % 256) as u8,
        (word / 65536 % 256) as u8,
        (word / 16777216 % 256) as u8,
    )
}

/// Packing a colour and unpacking the word gives the colour back.
pub proof fn lemma_pack_unpack(color: Color)
    ensures
        unpacked(packed(color)) == color,
{
    let a: u32 = color.0 as u32;
    let b: u32 = color.1 as u32;
    let c: u32 = color.2 as u32;
    let d: u32 = color.3 as u32;
    let w: u32 = (a + 256 * b + 65536 * c + 16777216 * d) as u32;
    assert(w as int == packed(color));
    assert(w % 256 == a && w / 256 % 256 == b && w / 65536 % 256 == c && w / 16777216 % 256 == d)
        by (bit_vector)
        requires
            a < 256 && b < 256 && c < 256 && d < 256,
            w == a + 256 * b + 65536 * c + 16777216 * d,
    ;
}

/// Unpacking a word and packing the colour gives the word back.
pub proof fn lemma_unpack_pack(word: u32)
    ensures
        packed(unpacked(word as int)) == word as int,
{
    let a: u32 = word % 256;
    let b: u32 = word / 256 % 256;
    let c: u32 = word / 65536 % 256;
    let d: u32 = word / 16777216 % 256;
    assert(a < 256 && b < 256 && c < 256 && d < 256 && word == a + 256 * b + 65536 * c + 16777216
        * d) by (bit_vector)
        requires
            a == word % 256,
            b == word / 256 % 256,
            c == word / 65536 % 256,
            d == word / 16777216 % 256,
    ;
}

/// Narrows an unsigned 16-bit number to the signed 16-bit number with the
/// same bits: values up to 32767 stay, larger ones come out 65536 lower.
pub fn narrow_coordinate(value: u16) -> (narrow: i16)
    ensures
        narrow as int == wrap_i16(value as int),
        value <= 32767 ==> narrow as int == value as int,
        value > 32767 ==> narrow as int == value as int - 65536,
{
    if value <= 32767 {
        value as i16
    } else {
        let wide: i32 = value as i32;
        (wide - 65536) as i16
    }
}

/// Converts a point to the native layout.
pub fn point_to_native(point: Point) -> (native: RDPoint)
    ensures
        native == native_point(point),
{
    RDPoint { x: narrow_coordinate(point.x), y: narrow_coordinate(point.y) }
}

/// Reads a signed 32-bit number from the native side as the unsigned number
/// with the same bits.
pub fn reinterpret_u32(value: i32) -> (word: u32)
    ensures
        word as int == wrap_u32(value as int),
        value >= 0 ==> word as int == value as int,
        value < 0 ==> word as int == value as int + 4294967296,
{
    if value >= 0 {
        value as u32
    } else {
        let wide: i64 = value as i64;
        (wide + 4294967296) as u32
    }
}

/// Keeps the low 16 bits of a signed 32-bit number from the native side.
pub fn truncate_coordinate(value: i32) -> (low: u16)
    ensures
        low as int == wrap_u16(value as int),
{
    let word: u32 = reinterpret_u32(value);
    (word % 65536) as u16
}

/// Keeps the low 32 bits of a length, read as a two's complement number.
pub fn truncate_count(len: usize) -> (count: i32)
    ensures
        count as int == wrap_i32(len as int),
        len <= 2147483647 ==> count as int == len as int,
{
    let low: u64 = (len as u64) % 4294967296;
    if low < 2147483648 {
        low as i32
    } else {
        let wide: i64 = low as i64;
        (wide - 4294967296) as i32
    }
}

/// Converts text to the bytes the native core reads: the text's UTF-8 bytes
/// followed by one zero byte. Text that holds a zero byte is refused.
pub fn marshal_text(text: &str) -> (result: Result<Vec<u8>, DrawError>)
    ensures
        has_zero(text.spec_bytes()) <==> result == Err::<Vec<u8>, DrawError>(DrawError::InvalidText),
        !has_zero(text.spec_bytes()) <==> result is Ok,
        result is Ok ==> result->Ok_0@ == terminated(text.spec_bytes()),
{
    let mut bytes: Vec<u8> = text.as_bytes_vec();
    let n: usize = bytes.len();
    let mut i: usize = 0;
    while i < n
        invariant
            n == bytes@.len(),
            bytes@ == text.spec_bytes(),
            i <= n,
            forall|j: int| 0 <= j < i ==> bytes@[j] != 0u8,
        decreases n - i,
    {
        if bytes[i] == 0 {
            return Err(DrawError::InvalidText);
        }
        i += 1;
    }
    bytes.push(0);
    Ok(bytes)
}

} // verus!
