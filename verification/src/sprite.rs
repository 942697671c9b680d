use vstd::prelude::*;

verus! {

/// Number of equal tiles on the horizontal sprite strip.
pub const TILE_COUNT: u32 = 5;

/// Horizontal texture range of one tile, as exact fractions over `den`.
#[derive(Clone, Copy, PartialEq, Eq, Structural, Debug)]
pub struct TileUv {
    pub left_num: u32,
    pub right_num: u32,
    pub den: u32,
}

/// Tile `index` of the strip covers the horizontal texture range from
/// `index / TILE_COUNT` to `(index + 1) / TILE_COUNT`.
pub fn tile_uv(index: u32) -> (r: TileUv)
    requires
        index < TILE_COUNT,
    ensures
        r.left_num == index,
        r.right_num == index + 1,
        r.den == TILE_COUNT,
{
    TileUv { left_num: index, right_num: index + 1, den: TILE_COUNT }
}

/// Why a sprite sheet could not be used.
#[derive(Clone, Copy, PartialEq, Eq, Structural, Debug)]
pub enum SpriteError {
    Decode,
    ZeroWidth,
    ZeroHeight,
}

/// The RGBA pixels and dimensions that decoding a byte slice as a PNG
/// yields, or nothing when the bytes are no readable PNG.
pub uninterp spec fn decoded_png(bytes: Seq<u8>) -> Option<(Seq<u8>, u32, u32)>;

/// Relies on image::load_from_memory_with_format, called with the PNG
/// format, and DynamicImage::to_rgba8. Naming the format dispatches
/// straight to the built-in PNG decoder with its fixed default limits —
/// the process-global detection and decoding hook registries are consulted
/// only on the guessed-format path, which this wrapper avoids — so the
/// result is a function of the input bytes alone, and the RGBA buffer
/// holds 4 bytes for each of width * height pixels.
#[verifier::external_body]
fn decode_png(bytes: &[u8]) -> (r: Option<(Vec<u8>, u32, u32)>)
    ensures
        match r {
            Some(v) => decoded_png(bytes@) == Some((v.0@, v.1, v.2)) && v.0@.len() == 4 * (
            v.1 as int) * (v.2 as int),
            None => decoded_png(bytes@) is None,
        },
{
    let img = match image::load_from_memory_with_format(bytes, image::ImageFormat::Png) {
        Ok(i) => i,
        Err(_) => return None,
    };
    let width = img.width();
    let height = img.height();
    Some((img.to_rgba8().into_raw(), width, height))
}

/// A sprite sheet is usable only if both pixel dimensions are non-zero.
pub fn check_dimensions(width: u32, height: u32) -> (r: Result<(), SpriteError>)
    ensures
        width == 0 ==> r == Err::<(), SpriteError>(SpriteError::ZeroWidth),
        width > 0 && height == 0 ==> r == Err::<(), SpriteError>(SpriteError::ZeroHeight),
        width > 0 && height > 0 ==> r == Ok::<(), SpriteError>(()),
{
    if width == 0 {
        Err(SpriteError::ZeroWidth)
    } else if height == 0 {
        Err(SpriteError::ZeroHeight)
    } else {
        Ok(())
    }
}

/// Decodes the embedded sprite sheet, a PNG: the RGBA pixels with their
/// dimensions, or the error saying why the bytes are unusable.
pub fn map(bytes: &[u8]) -> (r: Result<(Vec<u8>, u32, u32), SpriteError>)
    ensures
        match r {
            Ok(v) => decoded_png(bytes@) == Some((v.0@, v.1, v.2)) && v.1 > 0 && v.2 > 0
                && v.0@.len() == 4 * (v.1 as int) * (v.2 as int),
            Err(e) => match e {
                SpriteError::Decode => decoded_png(bytes@) is None,
                SpriteError::ZeroWidth => decoded_png(bytes@) matches Some(d) && d.1 == 0,
                SpriteError::ZeroHeight => decoded_png(bytes@) matches Some(d) && d.1 > 0 && d.2
                    == 0,
            },
        },
{
    match decode_png(bytes) {
        None => Err(SpriteError::Decode),
        Some((data, width, height)) => match check_dimensions(width, height) {
            Err(e) => Err(e),
            Ok(()) => Ok((data, width, height)),
        },
    }
}

} // verus!
