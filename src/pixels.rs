use vstd::prelude::*;
use crate::failure::{ErrorKind, Failure};

verus! {

/// An RGBA buffer of `height` rows, `4 * width` bytes each, with its rows in
/// reverse order: the first row of the result is the last row of `px`.
pub open spec fn flipped_rows(px: Seq<u8>, width: nat, height: nat) -> Seq<u8> {
    let row = 4 * width;
    Seq::new(
        px.len(),
        |k: int| px[(height - 1 - k / (row as int)) * row + k % (row as int)],
    )
}

/// Relies on glium's RawImage2d::from_raw_rgba_reversed, which lists the
/// `4 * width`-byte rows of the buffer in reverse order.
#[verifier::external_body]
fn reverse_rows(px: &Vec<u8>, width: u32, height: u32) -> (r: Vec<u8>)
    requires
        width > 0,
        px@.len() == 4 * width * height,
    ensures
        r@ == flipped_rows(px@, width as nat, height as nat),
{
    glium::texture::RawImage2d::from_raw_rgba_reversed(px.as_slice(), (width, height)).data.into_owned()
}

/// The pixels of a texture, ready for upload: RGBA bytes with the bottom row
/// first, so that texture coordinate (0, 0) is the image's bottom-left corner.
pub struct TexturePixels {
    pub width: u32,
    pub height: u32,
    pub rgba: Vec<u8>,
}

/// Whether `t` is the texture for a decoded image of the given size and RGBA
/// bytes: the same size, with the rows flipped.
pub open spec fn is_texture_of(width: u32, height: u32, px: Seq<u8>, t: TexturePixels) -> bool {
    t.width == width && t.height == height && t.rgba@ == flipped_rows(
        px,
        width as nat,
        height as nat,
    )
}

/// The texture for a decoded image: its rows flipped to put the origin at
/// the bottom-left. Fails with `TextureCreate` where the buffer does not hold
/// exactly four bytes per pixel.
pub fn texture_from_decoded(width: u32, height: u32, px: Vec<u8>) -> (r: Result<
    TexturePixels,
    Failure,
>)
    ensures
        px@.len() == 4 * width * height ==> (r matches Ok(t) && is_texture_of(
            width,
            height,
            px@,
            t,
        )),
        r matches Ok(t) ==> t.rgba@.len() == 4 * t.width * t.height,
        px@.len() != 4 * width * height ==> (r matches Err(f) && f.kind
            == ErrorKind::TextureCreate),
{
    assert(4 * (width as int) * (height as int) <= 4 * 0xffff_ffffint * 0xffff_ffffint)
        by (nonlinear_arith)
        requires
            width <= 0xffff_ffff,
            height <= 0xffff_ffff,
    ;
    let expected: u128 = 4 * (width as u128) * (height as u128);
    if px.len() as u128 != expected {
        return Err(Failure::new(ErrorKind::TextureCreate));
    }
    if width == 0 {
        assert(px@.len() == 0) by (nonlinear_arith)
            requires
                px@.len() == 4 * (width as int) * (height as int),
                width == 0,
        ;
        assert(px@ =~= flipped_rows(px@, width as nat, height as nat));
        return Ok(TexturePixels { width, height, rgba: px });
    }
    let rgba = reverse_rows(&px, width, height);
    Ok(TexturePixels { width, height, rgba })
}

} // verus!
