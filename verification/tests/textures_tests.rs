use vk_renderer::textures::{Texture, TextureId, TextureLookupError, TextureRegistry};

#[test]
fn fresh_registry_has_nothing() {
    let r: TextureRegistry<&'static str> = TextureRegistry::new();
    assert_eq!(r.texture_check(TextureId::Egui), Err(TextureLookupError::EguiTextureNotSet));
    assert_eq!(r.texture_check(TextureId::User(0)), Err(TextureLookupError::UserTextureNotFound(0)));
    assert!(r.needs_texture_update(0));
    assert!(r.pending_user_textures().is_empty());
}

#[test]
fn font_texture_uploaded_once_per_version() {
    let mut r: TextureRegistry<&'static str> = TextureRegistry::new();
    let t = Texture { version: 3, width: 2, height: 1, pixels: vec![10, 20] };
    let up = r.texture_upload(&t).unwrap();
    assert_eq!(up.version, 3);
    assert_eq!((up.width, up.height), (2, 1));
    assert_eq!(up.pixels, vec![10, 10, 10, 10, 20, 20, 20, 20]);
    r.set_texture(3, "font");
    assert!(!r.needs_texture_update(3));
    assert!(r.needs_texture_update(4));
    assert!(r.texture_upload(&t).is_none());
    assert_eq!(r.texture_check(TextureId::Egui), Ok(()));
    assert_eq!(r.texture_descriptor(TextureId::Egui), &"font");
}

#[test]
fn allocated_texture_draws_after_upload() {
    let mut r: TextureRegistry<&'static str> = TextureRegistry::new();
    let a = r.alloc_srgba_premultiplied((1, 1), &vec![[1, 2, 3, 4]]);
    let b = r.alloc_srgba_premultiplied((2, 1), &vec![[5, 6, 7, 8], [9, 10, 11, 12]]);
    assert_eq!(a, TextureId::User(0));
    assert_eq!(b, TextureId::User(1));
    let pending = r.pending_user_textures();
    assert_eq!(pending.len(), 2);
    assert_eq!(pending[0].0, 0);
    assert_eq!(pending[1].0, 1);
    assert_eq!(pending[1].1.pixels, vec![5, 6, 7, 8, 9, 10, 11, 12]);
    assert_eq!((pending[1].1.width, pending[1].1.height, pending[1].1.version), (2, 1, 0));
    assert_eq!(r.texture_check(a), Err(TextureLookupError::UserTextureNotFound(0)));
    r.update_user_textures(vec!["first", "second"]);
    assert!(r.pending_user_textures().is_empty());
    assert_eq!(r.texture_check(a), Ok(()));
    assert_eq!(r.texture_descriptor(a), &"first");
    assert_eq!(r.texture_check(b), Ok(()));
    assert_eq!(r.texture_descriptor(b), &"second");
    let c = r.alloc_srgba_premultiplied((0, 0), &vec![]);
    assert_eq!(c, TextureId::User(2));
}

#[test]
fn freed_texture_is_not_drawn() {
    let mut r: TextureRegistry<&'static str> = TextureRegistry::new();
    let a = r.alloc_srgba_premultiplied((1, 1), &vec![[0, 0, 0, 0]]);
    r.update_user_textures(vec!["t"]);
    r.free(a);
    assert_eq!(r.texture_check(a), Err(TextureLookupError::UserTextureFreed(0)));
    r.free(TextureId::User(9));
    r.free(TextureId::Egui);
    assert_eq!(r.texture_check(TextureId::User(9)), Err(TextureLookupError::UserTextureNotFound(9)));
}
