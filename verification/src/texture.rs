use vstd::prelude::*;

verus! {

/// The pixel layout of an image embedded in a model file.
#[derive(Clone, Copy, Debug, PartialEq, Eq, Structural)]
pub enum PixelFormat {
    /// Three 8-bit channels per pixel.
    R8G8B8,
    /// Four 8-bit channels per pixel.
    R8G8B8A8,
    /// Any other layout.
    Other,
}

/// Each complete three-byte pixel followed by an opaque alpha byte; an
/// incomplete pixel at the end is dropped.
pub open spec fn expanded_rgb(pixels: Seq<u8>) -> Seq<u8> {
    Seq::new(
        (pixels.len() / 3) * 4,
        |i: int| if i % 4 == 3 { 255u8 } else { pixels[(i / 4) * 3 + i % 4] },
    )
}

/// Adds an opaque alpha channel to three-channel pixels.
pub fn rgb_to_rgba(pixels: &[u8]) -> (r: Vec<u8>)
    ensures
        r@ == expanded_rgb(pixels@),
{
    let n = pixels.len() / 3;
    let mut out: Vec<u8> = Vec::new();
    let mut k: usize = 0;
    while k < n
        invariant
            n == pixels@.len() / 3,
            k <= n,
            out@.len() == k * 4,
            forall|i: int| 0 <= i < k * 4 ==> #[trigger] out@[i] == expanded_rgb(pixels@)[i],
        decreases n - k,
    {
        assert(3 * k + 2 < pixels@.len()) by (nonlinear_arith)
            requires
                k < n,
                n == pixels@.len() / 3,
        ;
        assert(pixels@.len() == pixels.len());
        let base: usize = 3 * k;
        out.push(pixels[base]);
        out.push(pixels[base + 1]);
        out.push(pixels[base + 2]);
        out.push(255u8);
        proof {
            assert forall|i: int| 0 <= i < (k + 1) * 4 implies #[trigger] out@[i] == expanded_rgb(
                pixels@,
            )[i] by {
                if i >= k * 4 {
                    let j = i - k * 4;
                    assert(i / 4 == k && i % 4 == j) by (nonlinear_arith)
                        requires
                            j == i - k * 4,
                            0 <= j < 4,
                    ;
                    assert(i < (pixels@.len() / 3) * 4) by (nonlinear_arith)
                        requires
                            i < (k + 1) * 4,
                            k < n,
                            n == pixels@.len() / 3,
                    ;
                }
            }
        }
        k = k + 1;
    }
    assert(out@ =~= expanded_rgb(pixels@));
    out
}

/// Every complete pixel keeps its three channels and becomes opaque.
pub proof fn rgb_pixels_become_opaque(pixels: Seq<u8>)
    ensures
        expanded_rgb(pixels).len() == (pixels.len() / 3) * 4,
        forall|k: int, c: int|
            0 <= k < pixels.len() / 3 && 0 <= c < 3 ==> #[trigger] expanded_rgb(pixels)[4 * k + c]
                == #[trigger] pixels[3 * k + c],
        forall|k: int| 0 <= k < pixels.len() / 3 ==> #[trigger] expanded_rgb(pixels)[4 * k + 3] == 255,
{
    assert forall|k: int, c: int|
        0 <= k < pixels.len() / 3 && 0 <= c < 3 implies #[trigger] expanded_rgb(pixels)[4 * k + c]
        == #[trigger] pixels[3 * k + c] by {
        assert((4 * k + c) / 4 == k && (4 * k + c) % 4 == c) by (nonlinear_arith)
            requires
                0 <= c < 3,
                0 <= k,
        ;
        assert(4 * k + c < (pixels.len() / 3) * 4) by (nonlinear_arith)
            requires
                0 <= c < 3,
                0 <= k < pixels.len() / 3,
        ;
    }
    assert forall|k: int| 0 <= k < pixels.len() / 3 implies #[trigger] expanded_rgb(pixels)[4 * k
        + 3] == 255 by {
        assert((4 * k + 3) % 4 == 3) by (nonlinear_arith)
            requires
                0 <= k,
        ;
        assert(4 * k + 3 < (pixels.len() / 3) * 4) by (nonlinear_arith)
            requires
                0 <= k < pixels.len() / 3,
        ;
    }
}

/// The RGBA bytes that the `image` crate's built-in decoders give for an
/// encoded image: its format is recognised by its leading magic bytes
/// (`image::guess_format`), it is decoded with the decoder of that format
/// (`image::load_from_memory_with_format`), then converted with `to_rgba8`
/// and `into_raw`. Only PNG and JPEG decoders are built; bytes of any other
/// format, or that fail to decode, give nothing.
pub uninterp spec fn decoded_rgba(bytes: Seq<u8>) -> Option<Seq<u8>>;

/// Decodes an encoded image into RGBA bytes with the `image` crate's
/// built-in magic-byte detection and decoders (`image::guess_format`, then
/// `image::load_from_memory_with_format`, `DynamicImage::to_rgba8` and
/// `ImageBuffer::into_raw`); neither call consults the crate's hook
/// registries. The contract claims only that the result is the one named
/// `decoded_rgba` for these bytes, an error of either call giving nothing;
/// what the decoders compute is left unsaid.
#[verifier::external_body]
fn decode_to_rgba(bytes: &[u8]) -> (r: Option<Vec<u8>>)
    ensures
        r is Some <==> decoded_rgba(bytes@) is Some,
        r matches Some(v) ==> decoded_rgba(bytes@) == Some(v@),
{
    let format = match image::guess_format(bytes) {
        Ok(format) => format,
        Err(_) => return None,
    };
    match image::load_from_memory_with_format(bytes, format) {
        Ok(decoded) => Some(decoded.to_rgba8().into_raw()),
        Err(_) => None,
    }
}

/// The RGBA bytes of a texture whose pixels are laid out as `format`.
pub open spec fn texture_rgba_spec(format: PixelFormat, pixels: Seq<u8>) -> Option<Seq<u8>> {
    match format {
        PixelFormat::R8G8B8 => Some(expanded_rgb(pixels)),
        PixelFormat::R8G8B8A8 => Some(pixels),
        PixelFormat::Other => decoded_rgba(pixels),
    }
}

/// The texture's pixels as RGBA bytes: three-channel pixels get an opaque
/// alpha, four-channel pixels are kept, anything else is handed to the
/// PNG and JPEG decoders, which may fail.
pub fn texture_rgba(format: PixelFormat, pixels: &[u8]) -> (r: Option<Vec<u8>>)
    ensures
        r is Some <==> texture_rgba_spec(format, pixels@) is Some,
        r matches Some(v) ==> texture_rgba_spec(format, pixels@) == Some(v@),
{
    match format {
        PixelFormat::R8G8B8 => Some(rgb_to_rgba(pixels)),
        PixelFormat::R8G8B8A8 => {
            let mut v: Vec<u8> = Vec::new();
            v.extend_from_slice(pixels);
            Some(v)
        },
        PixelFormat::Other => decode_to_rgba(pixels),
    }
}

/// A three-channel texture, whatever its length, becomes RGBA: four bytes
/// per complete pixel, each pixel keeping its three channels in order and
/// gaining an opaque alpha.
pub proof fn rgb_texture_becomes_rgba(pixels: Seq<u8>)
    ensures
        texture_rgba_spec(PixelFormat::R8G8B8, pixels) is Some,
        ({
            let rgba = texture_rgba_spec(PixelFormat::R8G8B8, pixels)->0;
            &&& rgba.len() == (pixels.len() / 3) * 4
            &&& forall|k: int, c: int|
                0 <= k < pixels.len() / 3 && 0 <= c < 3 ==> #[trigger] rgba[4 * k + c]
                    == #[trigger] pixels[3 * k + c]
            &&& forall|k: int| 0 <= k < pixels.len() / 3 ==> #[trigger] rgba[4 * k + 3] == 255
        }),
{
    rgb_pixels_become_opaque(pixels);
}

/// A four-channel texture is kept byte for byte; a texture in any other
/// layout is what the image decoders give for its bytes.
pub proof fn rgba_texture_is_kept(pixels: Seq<u8>)
    ensures
        texture_rgba_spec(PixelFormat::R8G8B8A8, pixels) == Some(pixels),
        texture_rgba_spec(PixelFormat::Other, pixels) == decoded_rgba(pixels),
{
}

/// Bytes in one row of an RGBA texture `width` pixels wide.
pub fn texture_bytes_per_row(width: u32) -> (r: u32)
    requires
        width <= u32::MAX / 4,
    ensures
        r == 4 * width,
{
    4 * width
}

} // verus!
