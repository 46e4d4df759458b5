//! Pixel formats of the textures the renderer uploads, and the conversions it
//! applies to pixel data before an upload.

use vstd::prelude::*;

verus! {

/// Pixel format of a decoded glTF image.
#[derive(Clone, Copy, Debug, PartialEq, Eq, Structural)]
pub enum ImageFormat {
    R8,
    R8G8,
    R8G8B8,
    R8G8B8A8,
    B8G8R8,
    B8G8R8A8,
    R16,
    R16G16,
    R16G16B16,
    R16G16B16A16,
}

/// Vulkan format of a texture the renderer creates.
#[derive(Clone, Copy, Debug, PartialEq, Eq, Structural)]
pub enum TextureFormat {
    R8Unorm,
    R8G8Unorm,
    R8G8B8Unorm,
    R8G8B8A8Unorm,
    B8G8R8Unorm,
    B8G8R8A8Unorm,
}

/// Tiling of a texture the renderer creates.
#[derive(Clone, Copy, Debug, PartialEq, Eq, Structural)]
pub enum Tiling {
    Optimal,
    Linear,
}

/// The texture format that holds a glTF image's pixels unchanged: the 8-bit
/// formats map to their `UNORM` counterparts; the 16-bit formats have none.
pub open spec fn texture_format_spec(f: ImageFormat) -> Option<TextureFormat> {
    match f {
        ImageFormat::R8 => Some(TextureFormat::R8Unorm),
        ImageFormat::R8G8 => Some(TextureFormat::R8G8Unorm),
        ImageFormat::R8G8B8 => Some(TextureFormat::R8G8B8Unorm),
        ImageFormat::R8G8B8A8 => Some(TextureFormat::R8G8B8A8Unorm),
        ImageFormat::B8G8R8 => Some(TextureFormat::B8G8R8Unorm),
        ImageFormat::B8G8R8A8 => Some(TextureFormat::B8G8R8A8Unorm),
        _ => None,
    }
}

/// Whether the renderer has a texture format for a glTF image format.
pub fn texture_format_supported(f: ImageFormat) -> (r: bool)
    ensures
        r == texture_format_spec(f) is Some,
{
    match f {
        ImageFormat::R8 | ImageFormat::R8G8 | ImageFormat::R8G8B8 | ImageFormat::R8G8B8A8
        | ImageFormat::B8G8R8 | ImageFormat::B8G8R8A8 => true,
        _ => false,
    }
}

/// The texture format for an image of a format the renderer supports.
pub fn texture_format(f: ImageFormat) -> (r: TextureFormat)
    requires
        texture_format_spec(f) is Some,
    ensures
        texture_format_spec(f) == Some(r),
{
    match f {
        ImageFormat::R8 => TextureFormat::R8Unorm,
        ImageFormat::R8G8 => TextureFormat::R8G8Unorm,
        ImageFormat::R8G8B8 => TextureFormat::R8G8B8Unorm,
        ImageFormat::R8G8B8A8 => TextureFormat::R8G8B8A8Unorm,
        ImageFormat::B8G8R8 => TextureFormat::B8G8R8Unorm,
        _ => TextureFormat::B8G8R8A8Unorm,
    }
}

/// RGB bytes widened to RGBA: every byte is copied, and after every third
/// byte a fully opaque alpha byte (255) follows.
pub open spec fn rgb_to_rgba_spec(p: Seq<u8>) -> Seq<u8>
    decreases p.len(),
{
    if p.len() == 0 {
        Seq::empty()
    } else if p.len() % 3 == 0 {
        rgb_to_rgba_spec(p.drop_last()).push(p.last()).push(255u8)
    } else {
        rgb_to_rgba_spec(p.drop_last()).push(p.last())
    }
}

/// Widens tightly packed RGB pixels to RGBA with an opaque alpha channel.
pub fn rgb_to_rgba(pixels: &Vec<u8>) -> (r: Vec<u8>)
    ensures
        r@ == rgb_to_rgba_spec(pixels@),
{
    let mut out: Vec<u8> = Vec::new();
    let mut i: usize = 0;
    assert(pixels@.take(0) =~= Seq::<u8>::empty());
    while i < pixels.len()
        invariant
            i <= pixels@.len(),
            out@ == rgb_to_rgba_spec(pixels@.take(i as int)),
        decreases pixels@.len() - i,
    {
        out.push(pixels[i]);
        assert(pixels@.take(i + 1).drop_last() =~= pixels@.take(i as int));
        if (i + 1) % 3 == 0 {
            out.push(255u8);
        }
        i = i + 1;
    }
    assert(pixels@.take(i as int) =~= pixels@);
    out
}

/// The length of the widened data: one alpha byte more per complete pixel.
pub proof fn lemma_rgb_to_rgba_len(p: Seq<u8>)
    ensures
        rgb_to_rgba_spec(p).len() == p.len() + p.len() / 3,
    decreases p.len(),
{
    if p.len() > 0 {
        lemma_rgb_to_rgba_len(p.drop_last());
    }
}

/// Widening a prefix gives a prefix of the widening.
proof fn lemma_rgb_to_rgba_prefix(p: Seq<u8>, k: int, i: int)
    requires
        0 <= k <= p.len(),
        0 <= i < rgb_to_rgba_spec(p.take(k)).len(),
    ensures
        rgb_to_rgba_spec(p)[i] == rgb_to_rgba_spec(p.take(k))[i],
        rgb_to_rgba_spec(p.take(k)).len() <= rgb_to_rgba_spec(p).len(),
    decreases p.len() - k,
{
    if k < p.len() {
        assert(p.take(k + 1).drop_last() =~= p.take(k));
        lemma_rgb_to_rgba_prefix(p, k + 1, i);
    } else {
        assert(p.take(k) =~= p);
    }
}

/// Every complete RGB pixel `k` becomes the RGBA pixel `k`: its three colour
/// bytes in order, then alpha 255.
pub proof fn lemma_rgb_to_rgba_pixel(p: Seq<u8>, k: int)
    requires
        0 <= k,
        3 * k + 3 <= p.len(),
    ensures
        rgb_to_rgba_spec(p)[4 * k] == p[3 * k],
        rgb_to_rgba_spec(p)[4 * k + 1] == p[3 * k + 1],
        rgb_to_rgba_spec(p)[4 * k + 2] == p[3 * k + 2],
        rgb_to_rgba_spec(p)[4 * k + 3] == 255u8,
{
    let a = p.take(3 * k);
    let b = p.take(3 * k + 1);
    let c = p.take(3 * k + 2);
    let d = p.take(3 * k + 3);
    lemma_rgb_to_rgba_len(a);
    assert(b.drop_last() =~= a);
    assert(c.drop_last() =~= b);
    assert(d.drop_last() =~= c);
    assert(b.last() == p[3 * k]);
    assert(c.last() == p[3 * k + 1]);
    assert(d.last() == p[3 * k + 2]);
    assert((3 * k) / 3 == k);
    assert(b.len() % 3 != 0);
    assert(c.len() % 3 != 0);
    assert(d.len() % 3 == 0);
    assert(rgb_to_rgba_spec(b) == rgb_to_rgba_spec(a).push(p[3 * k]));
    assert(rgb_to_rgba_spec(c) == rgb_to_rgba_spec(b).push(p[3 * k + 1]));
    assert(rgb_to_rgba_spec(d) == rgb_to_rgba_spec(c).push(p[3 * k + 2]).push(255u8));
    assert(rgb_to_rgba_spec(a).len() == 4 * k);
    lemma_rgb_to_rgba_prefix(p, 3 * k + 3, 4 * k);
    lemma_rgb_to_rgba_prefix(p, 3 * k + 3, 4 * k + 1);
    lemma_rgb_to_rgba_prefix(p, 3 * k + 3, 4 * k + 2);
    lemma_rgb_to_rgba_prefix(p, 3 * k + 3, 4 * k + 3);
}

/// Whether the RGBA-only loader takes images of a format: RGB and RGBA.
pub open spec fn rgba_uploadable(f: ImageFormat) -> bool {
    f == ImageFormat::R8G8B8 || f == ImageFormat::R8G8B8A8
}

/// Whether the RGBA-only loader takes images of a format.
pub fn rgba_upload_supported(f: ImageFormat) -> (r: bool)
    ensures
        r == rgba_uploadable(f),
{
    match f {
        ImageFormat::R8G8B8 | ImageFormat::R8G8B8A8 => true,
        _ => false,
    }
}

/// What the RGBA-only loader uploads for a glTF image: RGB data widened to
/// RGBA with linear tiling, RGBA data unchanged with optimal tiling.
pub fn rgba_upload(format: ImageFormat, pixels: &Vec<u8>) -> (r: (Vec<u8>, Tiling))
    requires
        rgba_uploadable(format),
    ensures
        format == ImageFormat::R8G8B8 ==> r.0@ == rgb_to_rgba_spec(pixels@) && r.1 == Tiling::Linear,
        format == ImageFormat::R8G8B8A8 ==> r.0@ == pixels@ && r.1 == Tiling::Optimal,
{
    match format {
        ImageFormat::R8G8B8 => (rgb_to_rgba(pixels), Tiling::Linear),
        _ => {
            let mut copy: Vec<u8> = Vec::new();
            let mut i: usize = 0;
            while i < pixels.len()
                invariant
                    i <= pixels@.len(),
                    copy@ == pixels@.take(i as int),
                decreases pixels@.len() - i,
            {
                copy.push(pixels[i]);
                i = i + 1;
                assert(copy@ =~= pixels@.take(i as int));
            }
            assert(pixels@.take(i as int) =~= pixels@);
            (copy, Tiling::Optimal)
        },
    }
}

/// Alpha-only font texels widened to RGBA: each byte repeated four times.
pub open spec fn alpha_to_rgba_spec(p: Seq<u8>) -> Seq<u8> {
    Seq::new(4 * p.len(), |i: int| p[i / 4])
}

/// Widens the one-byte texels of the font texture to RGBA by repeating each
/// byte in all four channels.
pub fn alpha_to_rgba(pixels: &Vec<u8>) -> (r: Vec<u8>)
    requires
        4 * pixels@.len() <= usize::MAX,
    ensures
        r@ == alpha_to_rgba_spec(pixels@),
{
    let mut out: Vec<u8> = Vec::new();
    let mut i: usize = 0;
    while i < pixels.len()
        invariant
            i <= pixels@.len(),
            out@ =~= alpha_to_rgba_spec(pixels@.take(i as int)),
        decreases pixels@.len() - i,
    {
        let p = pixels[i];
        out.push(p);
        out.push(p);
        out.push(p);
        out.push(p);
        i = i + 1;
        assert(out@ =~= alpha_to_rgba_spec(pixels@.take(i as int))) by {
            assert forall|j: int| 0 <= j < out@.len() implies out@[j] == alpha_to_rgba_spec(
                pixels@.take(i as int),
            )[j] by {
                if j < 4 * (i - 1) {
                    assert(pixels@.take(i as int)[j / 4] == pixels@.take(i - 1)[j / 4]);
                }
            }
        }
    }
    assert(pixels@.take(i as int) =~= pixels@);
    out
}

/// Colours given as four bytes each, laid out one after another.
pub open spec fn flatten_colors_spec(colors: Seq<[u8; 4]>) -> Seq<u8> {
    Seq::new(4 * colors.len(), |i: int| colors[i / 4]@[i % 4])
}

/// Lays out premultiplied sRGBA colours as bytes, four per colour in the order
/// of the colour's own components.
pub fn flatten_colors(colors: &Vec<[u8; 4]>) -> (r: Vec<u8>)
    requires
        4 * colors@.len() <= usize::MAX,
    ensures
        r@ == flatten_colors_spec(colors@),
{
    let mut out: Vec<u8> = Vec::new();
    let mut i: usize = 0;
    while i < colors.len()
        invariant
            i <= colors@.len(),
            out@ =~= flatten_colors_spec(colors@.take(i as int)),
        decreases colors@.len() - i,
    {
        let c = colors[i];
        out.push(c[0]);
        out.push(c[1]);
        out.push(c[2]);
        out.push(c[3]);
        i = i + 1;
        assert(out@ =~= flatten_colors_spec(colors@.take(i as int))) by {
            assert forall|j: int| 0 <= j < out@.len() implies out@[j] == flatten_colors_spec(
                colors@.take(i as int),
            )[j] by {
                if j < 4 * (i - 1) {
                    assert(colors@.take(i as int)[j / 4] == colors@.take(i - 1)[j / 4]);
                }
            }
        }
    }
    assert(colors@.take(i as int) =~= colors@);
    out
}

/// How a glTF image format lays out a texel: channel count, bytes per
/// channel, and whether blue comes before red.
pub open spec fn image_texel_layout(f: ImageFormat) -> (nat, nat, bool) {
    match f {
        ImageFormat::R8 => (1, 1, false),
        ImageFormat::R8G8 => (2, 1, false),
        ImageFormat::R8G8B8 => (3, 1, false),
        ImageFormat::R8G8B8A8 => (4, 1, false),
        ImageFormat::B8G8R8 => (3, 1, true),
        ImageFormat::B8G8R8A8 => (4, 1, true),
        ImageFormat::R16 => (1, 2, false),
        ImageFormat::R16G16 => (2, 2, false),
        ImageFormat::R16G16B16 => (3, 2, false),
        ImageFormat::R16G16B16A16 => (4, 2, false),
    }
}

/// How a texture format lays out a texel: channel count, bytes per channel,
/// and whether blue comes before red.
pub open spec fn texture_texel_layout(t: TextureFormat) -> (nat, nat, bool) {
    match t {
        TextureFormat::R8Unorm => (1, 1, false),
        TextureFormat::R8G8Unorm => (2, 1, false),
        TextureFormat::R8G8B8Unorm => (3, 1, false),
        TextureFormat::R8G8B8A8Unorm => (4, 1, false),
        TextureFormat::B8G8R8Unorm => (3, 1, true),
        TextureFormat::B8G8R8A8Unorm => (4, 1, true),
    }
}

/// Images are uploaded unchanged: a glTF image format has a texture format
/// exactly when its channels are one byte wide, and that texture format lays
/// out texels as the image does: the same channels, the same width, the same
/// order. So every 8-bit image is accepted and only 16-bit images are not.
pub proof fn lemma_texture_format_keeps_layout(f: ImageFormat)
    ensures
        texture_format_spec(f) is Some <==> image_texel_layout(f).1 == 1,
        texture_format_spec(f) matches Some(t) ==> texture_texel_layout(t) == image_texel_layout(f),
{
}

/// The RGBA-only loader takes exactly the RGB and RGBA images, and hands each
/// over as four bytes per pixel: RGB pixels gain an opaque alpha, RGBA pixels
/// stay as they are.
pub proof fn lemma_rgba_upload_four_bytes_per_pixel(f: ImageFormat, pixels: Seq<u8>)
    requires
        rgba_uploadable(f),
        pixels.len() % image_texel_layout(f).0 == 0,
    ensures
        image_texel_layout(f).1 == 1 && !image_texel_layout(f).2,
        image_texel_layout(f).0 == 3 || image_texel_layout(f).0 == 4,
        f == ImageFormat::R8G8B8 ==> rgb_to_rgba_spec(pixels).len() == 4 * (pixels.len() / 3),
{
    if f == ImageFormat::R8G8B8 {
        lemma_rgb_to_rgba_len(pixels);
    }
}

} // verus!
