use vk_renderer::pixels::{
    alpha_to_rgba, flatten_colors, rgb_to_rgba, rgba_upload, rgba_upload_supported, texture_format, texture_format_supported,
    ImageFormat, TextureFormat, Tiling,
};

#[test]
fn rgb_widened_with_opaque_alpha() {
    assert_eq!(rgb_to_rgba(&vec![1, 2, 3, 4, 5, 6]), vec![1, 2, 3, 255, 4, 5, 6, 255]);
    assert_eq!(rgb_to_rgba(&vec![]), Vec::<u8>::new());
    assert_eq!(rgb_to_rgba(&vec![9, 8, 7, 6]), vec![9, 8, 7, 255, 6]);
}

#[test]
fn rgb_widening_per_pixel() {
    let rgb: Vec<u8> = (0..30u8).collect();
    let rgba = rgb_to_rgba(&rgb);
    assert_eq!(rgba.len(), 40);
    for k in 0..10 {
        assert_eq!(&rgba[4 * k..4 * k + 3], &rgb[3 * k..3 * k + 3]);
        assert_eq!(rgba[4 * k + 3], 255);
    }
}

#[test]
fn upload_by_format() {
    let (data, tiling) = rgba_upload(ImageFormat::R8G8B8, &vec![1, 2, 3]);
    assert_eq!(data, vec![1, 2, 3, 255]);
    assert_eq!(tiling, Tiling::Linear);
    let (data, tiling) = rgba_upload(ImageFormat::R8G8B8A8, &vec![1, 2, 3, 4]);
    assert_eq!(data, vec![1, 2, 3, 4]);
    assert_eq!(tiling, Tiling::Optimal);
    assert!(rgba_upload_supported(ImageFormat::R8G8B8));
    assert!(rgba_upload_supported(ImageFormat::R8G8B8A8));
    assert!(!rgba_upload_supported(ImageFormat::R8));
    assert!(!rgba_upload_supported(ImageFormat::R16G16B16A16));
}

#[test]
fn gltf_formats_map_to_unorm() {
    assert_eq!(texture_format(ImageFormat::R8), TextureFormat::R8Unorm);
    assert_eq!(texture_format(ImageFormat::R8G8), TextureFormat::R8G8Unorm);
    assert_eq!(texture_format(ImageFormat::R8G8B8), TextureFormat::R8G8B8Unorm);
    assert_eq!(texture_format(ImageFormat::R8G8B8A8), TextureFormat::R8G8B8A8Unorm);
    assert_eq!(texture_format(ImageFormat::B8G8R8), TextureFormat::B8G8R8Unorm);
    assert_eq!(texture_format(ImageFormat::B8G8R8A8), TextureFormat::B8G8R8A8Unorm);
    assert!(texture_format_supported(ImageFormat::B8G8R8A8));
    assert!(!texture_format_supported(ImageFormat::R16));
    assert!(!texture_format_supported(ImageFormat::R16G16));
    assert!(!texture_format_supported(ImageFormat::R16G16B16));
}

#[test]
fn alpha_and_colors_to_bytes() {
    assert_eq!(alpha_to_rgba(&vec![7, 200]), vec![7, 7, 7, 7, 200, 200, 200, 200]);
    assert_eq!(alpha_to_rgba(&vec![]), Vec::<u8>::new());
    assert_eq!(flatten_colors(&vec![[1, 2, 3, 4], [5, 6, 7, 8]]), vec![1, 2, 3, 4, 5, 6, 7, 8]);
}
