//! Pixel formats of textures and the size of the data that fills one.
use vstd::prelude::*;

verus! {

#[derive(Clone, Copy, Debug, PartialEq, Eq, Structural)]
pub enum TextureFormat {
    /// Four bytes per pixel: red, green, blue, alpha.
    Rgba8,
    /// Three bytes per pixel: red, green, blue.
    Rgb8,
}

pub open spec fn pixel_bytes(format: TextureFormat) -> u32 {
    match format {
        TextureFormat::Rgba8 => 4,
        TextureFormat::Rgb8 => 3,
    }
}

/// The format of a decoded image with the given number of channels; only
/// three and four channels are supported.
pub fn format_for_channels(channels: i32) -> (r: Option<TextureFormat>)
    ensures
        channels == 4 ==> r == Some(TextureFormat::Rgba8),
        channels == 3 ==> r == Some(TextureFormat::Rgb8),
        channels != 3 && channels != 4 ==> r is None,
{
    if channels == 4 {
        Some(TextureFormat::Rgba8)
    } else if channels == 3 {
        Some(TextureFormat::Rgb8)
    } else {
        None
    }
}

pub fn bytes_per_pixel(format: TextureFormat) -> (r: u32)
    ensures
        r == pixel_bytes(format),
{
    match format {
        TextureFormat::Rgba8 => 4,
        TextureFormat::Rgb8 => 3,
    }
}

/// The number of bytes that covers a whole `width` by `height` texture.
pub fn texture_data_size(width: u32, height: u32, format: TextureFormat) -> (r: u128)
    ensures
        r == width * height * pixel_bytes(format),
{
    proof {
        assert(width * height <= 0xffff_ffff * 0xffff_ffff) by (nonlinear_arith)
            requires
                width <= 0xffff_ffff,
                height <= 0xffff_ffff,
        ;
        assert(width * height * pixel_bytes(format) <= 0xffff_ffff * 0xffff_ffff * 4)
            by (nonlinear_arith)
            requires
                width * height <= 0xffff_ffff * 0xffff_ffff,
                pixel_bytes(format) <= 4,
        ;
    }
    let area: u128 = width as u128 * height as u128;
    area * bytes_per_pixel(format) as u128
}

/// Data of `size` bytes fills the whole texture, as an upload requires.
pub fn fills_texture(size: usize, width: u32, height: u32, format: TextureFormat) -> (r: bool)
    ensures
        r == (size == width * height * pixel_bytes(format)),
{
    size as u128 == texture_data_size(width, height, format)
}

} // verus!
