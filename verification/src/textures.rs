//! The texture bookkeeping of the GUI render pass: the font texture, the user
//! textures that the application allocates and frees, and which GPU descriptor
//! each texture id draws with.
//!
//! `D` is the GPU descriptor set of a texture; the registry never looks inside
//! one.

use vstd::prelude::*;
use crate::pixels::{alpha_to_rgba, alpha_to_rgba_spec, flatten_colors, flatten_colors_spec};

verus! {

/// Which texture a GUI mesh samples: the font texture or a user texture.
#[derive(Clone, Copy, Debug, PartialEq, Eq, Structural)]
pub enum TextureId {
    Egui,
    User(u64),
}

/// Texel data handed to the render pass.
#[derive(Debug)]
pub struct Texture {
    /// Changes whenever the texel data changes.
    pub version: u64,
    pub width: usize,
    pub height: usize,
    pub pixels: Vec<u8>,
}

/// Why a texture id has no descriptor to draw with.
#[derive(Clone, Copy, Debug, PartialEq, Eq, Structural)]
pub enum TextureLookupError {
    /// The font texture was not uploaded before the first draw.
    EguiTextureNotSet,
    /// No user texture with this id was ever uploaded.
    UserTextureNotFound(u64),
    /// The user texture with this id was freed.
    UserTextureFreed(u64),
}

/// Texture state of the GUI render pass.
pub struct TextureRegistry<D> {
    texture: Option<D>,
    texture_version: Option<u64>,
    next_user_texture_id: u64,
    pending_user_textures: Vec<(u64, Texture)>,
    user_textures: Vec<Option<D>>,
}

impl<D> TextureRegistry<D> {
    /// Descriptor of the font texture, once uploaded.
    pub closed spec fn egui_texture(&self) -> Option<D> {
        self.texture
    }

    /// Version of the uploaded font texture.
    pub closed spec fn egui_version(&self) -> Option<u64> {
        self.texture_version
    }

    /// The id the next user texture allocation hands out.
    pub closed spec fn next_id(&self) -> u64 {
        self.next_user_texture_id
    }

    /// Ids of the allocated user textures that wait for their upload, in order.
    pub closed spec fn pending_ids(&self) -> Seq<u64> {
        self.pending_user_textures@.map_values(|p: (u64, Texture)| p.0)
    }

    /// Texel data of the user textures that wait for their upload, in order.
    pub closed spec fn pending_pixels(&self) -> Seq<Seq<u8>> {
        self.pending_user_textures@.map_values(|p: (u64, Texture)| p.1.pixels@)
    }

    /// Width, height and version of the user textures that wait for their
    /// upload, in order.
    pub closed spec fn pending_meta(&self) -> Seq<(usize, usize, u64)> {
        self.pending_user_textures@.map_values(|p: (u64, Texture)| (p.1.width, p.1.height, p.1.version))
    }

    /// Descriptors of the uploaded user textures, by id; `None` once freed.
    pub closed spec fn user(&self) -> Seq<Option<D>> {
        self.user_textures@
    }

    /// The bookkeeping invariant: user texture `k` is uploaded at position `k`,
    /// the pending ones follow in id order, and the next id comes after all of
    /// them.
    pub open spec fn wf(&self) -> bool {
        &&& self.user().len() + self.pending_ids().len() == self.next_id()
        &&& forall|i: int|
            0 <= i < self.pending_ids().len() ==> #[trigger] self.pending_ids()[i] == self.user().len()
                + i
    }

    /// Whether a font texture of `version` still has to be uploaded: unless
    /// the uploaded one has that version.
    pub open spec fn upload_needed(&self, version: u64) -> bool {
        self.egui_version() != Some(version)
    }

    /// What drawing with `id` finds.
    pub open spec fn lookup(&self, id: TextureId) -> Result<D, TextureLookupError> {
        match id {
            TextureId::Egui => match self.egui_texture() {
                Some(d) => Ok(d),
                None => Err(TextureLookupError::EguiTextureNotSet),
            },
            TextureId::User(k) => if (k as usize) >= self.user().len() {
                Err(TextureLookupError::UserTextureNotFound(k))
            } else {
                match self.user()[(k as usize) as int] {
                    Some(d) => Ok(d),
                    None => Err(TextureLookupError::UserTextureFreed(k)),
                }
            },
        }
    }

    /// A registry with no texture uploaded, no user texture allocated.
    pub fn new() -> (r: Self)
        ensures
            r.wf(),
            r.egui_texture() is None,
            r.egui_version() is None,
            r.next_id() == 0,
            r.pending_ids().len() == 0,
            r.user().len() == 0,
    {
        let r = TextureRegistry {
            texture: None,
            texture_version: None,
            next_user_texture_id: 0,
            pending_user_textures: Vec::new(),
            user_textures: Vec::new(),
        };
        assert(r.pending_ids() =~= Seq::<u64>::empty());
        r
    }

    /// The id the next user texture allocation hands out.
    pub fn next_user_texture_id(&self) -> (r: u64)
        ensures
            r == self.next_id(),
    {
        self.next_user_texture_id
    }

    /// Whether a font texture of this version still has to be uploaded: it has
    /// unless the uploaded one has the same version.
    pub fn needs_texture_update(&self, version: u64) -> (r: bool)
        ensures
            r == self.upload_needed(version),
    {
        match self.texture_version {
            Some(v) => v != version,
            None => true,
        }
    }

    /// The font texture as it is uploaded: `None` when its version is already
    /// on the GPU, else the same texture with each one-byte texel widened to
    /// RGBA.
    pub fn texture_upload(&self, egui_texture: &Texture) -> (r: Option<Texture>)
        requires
            4 * egui_texture.pixels@.len() <= usize::MAX,
        ensures
            !self.upload_needed(egui_texture.version) ==> r is None,
            self.upload_needed(egui_texture.version) ==> (r matches Some(t) && t.version
                == egui_texture.version && t.width == egui_texture.width && t.height
                == egui_texture.height && t.pixels@ == alpha_to_rgba_spec(egui_texture.pixels@)),
    {
        if !self.needs_texture_update(egui_texture.version) {
            return None;
        }
        Some(
            Texture {
                version: egui_texture.version,
                width: egui_texture.width,
                height: egui_texture.height,
                pixels: alpha_to_rgba(&egui_texture.pixels),
            },
        )
    }

    /// Records that the font texture of `version` now draws with `descriptor`.
    pub fn set_texture(&mut self, version: u64, descriptor: D)
        ensures
            final(self).egui_texture() == Some(descriptor),
            final(self).egui_version() == Some(version),
            final(self).next_id() == old(self).next_id(),
            final(self).pending_ids() == old(self).pending_ids(),
            final(self).pending_pixels() == old(self).pending_pixels(),
            final(self).pending_meta() == old(self).pending_meta(),
            final(self).user() == old(self).user(),
    {
        self.texture_version = Some(version);
        self.texture = Some(descriptor);
    }

    /// Allocates a user texture from premultiplied sRGBA colours: hands out the
    /// next id and queues the texture, its colours laid out as bytes, for
    /// upload.
    pub fn alloc_srgba_premultiplied(&mut self, size: (usize, usize), srgba_pixels: &Vec<[u8; 4]>) -> (r:
        TextureId)
        requires
            old(self).wf(),
            old(self).next_id() < u64::MAX,
            4 * srgba_pixels@.len() <= usize::MAX,
        ensures
            final(self).wf(),
            r == TextureId::User(old(self).next_id()),
            final(self).next_id() == old(self).next_id() + 1,
            final(self).pending_ids() == old(self).pending_ids().push(old(self).next_id()),
            final(self).pending_pixels() == old(self).pending_pixels().push(
                flatten_colors_spec(srgba_pixels@),
            ),
            final(self).pending_meta() == old(self).pending_meta().push((size.0, size.1, 0u64)),
            final(self).user() == old(self).user(),
            final(self).egui_texture() == old(self).egui_texture(),
            final(self).egui_version() == old(self).egui_version(),
    {
        let id = self.next_user_texture_id;
        self.next_user_texture_id = self.next_user_texture_id + 1;
        let pixels = flatten_colors(srgba_pixels);
        let (width, height) = size;
        let ghost before = self.pending_user_textures@;
        self.pending_user_textures.push((id, Texture { version: 0, width, height, pixels }));
        assert(self.pending_ids() =~= before.map_values(|p: (u64, Texture)| p.0).push(id));
        assert(self.pending_pixels() =~= before.map_values(|p: (u64, Texture)| p.1.pixels@).push(
            flatten_colors_spec(srgba_pixels@),
        ));
        assert(self.pending_meta() =~= before.map_values(
            |p: (u64, Texture)| (p.1.width, p.1.height, p.1.version),
        ).push((width, height, 0u64)));
        TextureId::User(id)
    }

    /// Frees a user texture: its descriptor is dropped and later draws with its
    /// id find it freed. Freeing the font texture, or an id that was never
    /// uploaded, changes nothing.
    pub fn free(&mut self, id: TextureId)
        requires
            old(self).wf(),
        ensures
            final(self).wf(),
            final(self).user() == match id {
                TextureId::User(k) => if (k as usize) < old(self).user().len() {
                    old(self).user().update((k as usize) as int, None)
                } else {
                    old(self).user()
                },
                TextureId::Egui => old(self).user(),
            },
            final(self).next_id() == old(self).next_id(),
            final(self).pending_ids() == old(self).pending_ids(),
            final(self).pending_pixels() == old(self).pending_pixels(),
            final(self).pending_meta() == old(self).pending_meta(),
            final(self).egui_texture() == old(self).egui_texture(),
            final(self).egui_version() == old(self).egui_version(),
    {
        if let TextureId::User(k) = id {
            let i = k as usize;
            if i < self.user_textures.len() {
                self.user_textures.set(i, None);
            }
        }
    }

    /// The user textures that wait for their upload, with their ids.
    pub fn pending_user_textures(&self) -> (r: &Vec<(u64, Texture)>)
        ensures
            r@.map_values(|p: (u64, Texture)| p.0) == self.pending_ids(),
            r@.map_values(|p: (u64, Texture)| p.1.pixels@) == self.pending_pixels(),
            r@.map_values(|p: (u64, Texture)| (p.1.width, p.1.height, p.1.version)) == self.pending_meta(),
    {
        &self.pending_user_textures
    }

    /// Records the descriptors created for the pending user textures, one per
    /// pending texture in order; they become drawable under their ids and
    /// nothing is pending any more.
    pub fn update_user_textures(&mut self, created: Vec<D>)
        requires
            old(self).wf(),
            created@.len() == old(self).pending_ids().len(),
        ensures
            final(self).wf(),
            final(self).user() == old(self).user() + created@.map_values(|d: D| Some(d)),
            final(self).pending_ids().len() == 0,
            final(self).next_id() == old(self).next_id(),
            final(self).egui_texture() == old(self).egui_texture(),
            final(self).egui_version() == old(self).egui_version(),
    {
        let ghost old_user = self.user_textures@;
        proof {
            assert(old(self).pending_ids().len() == old(self).pending_user_textures@.len());
        }
        let mut created = created;
        let mut rest: Vec<D> = Vec::new();
        // move the descriptors into place in their original order
        let n = created.len();
        let ghost c0 = created@;
        let mut i: usize = 0;
        while i < n
            invariant
                n == c0.len(),
                i <= n,
                created@ == c0.take(n - i),
                rest@ == c0.skip(n - i).reverse(),
                *self == *old(self),
            decreases n - i,
        {
            let d = created.pop().unwrap();
            rest.push(d);
            i = i + 1;
            assert(created@ =~= c0.take(n - i));
            assert(rest@ =~= c0.skip(n - i).reverse());
        }
        let mut j: usize = 0;
        while j < n
            invariant
                n == c0.len(),
                j <= n,
                rest@ == c0.skip(j as int).reverse(),
                self.user_textures@ == old_user + c0.take(j as int).map_values(|d: D| Some(d)),
                self.next_user_texture_id == old(self).next_user_texture_id,
                self.texture == old(self).texture,
                self.texture_version == old(self).texture_version,
            decreases n - j,
        {
            let d = rest.pop().unwrap();
            self.user_textures.push(Some(d));
            j = j + 1;
            assert(rest@ =~= c0.skip(j as int).reverse());
            assert(self.user_textures@ =~= old_user + c0.take(j as int).map_values(|d: D| Some(d)));
        }
        assert(c0.take(n as int) =~= c0);
        self.pending_user_textures = Vec::new();
        assert(self.pending_ids() =~= Seq::<u64>::empty());
    }

    /// Whether drawing with `id` finds a descriptor, and if not, why.
    pub fn texture_check(&self, id: TextureId) -> (r: Result<(), TextureLookupError>)
        ensures
            r is Ok <==> self.lookup(id) is Ok,
            r matches Err(e) ==> self.lookup(id) == Err::<D, TextureLookupError>(e),
    {
        match id {
            TextureId::Egui => match self.texture.as_ref() {
                Some(_) => Ok(()),
                None => Err(TextureLookupError::EguiTextureNotSet),
            },
            TextureId::User(k) => {
                let i = k as usize;
                if i >= self.user_textures.len() {
                    Err(TextureLookupError::UserTextureNotFound(k))
                } else {
                    match self.user_textures[i].as_ref() {
                        Some(_) => Ok(()),
                        None => Err(TextureLookupError::UserTextureFreed(k)),
                    }
                }
            },
        }
    }

    /// The descriptor that drawing with `id` binds: the font texture's once
    /// uploaded, or an uploaded user texture's that was not freed.
    pub fn texture_descriptor(&self, id: TextureId) -> (r: &D)
        requires
            self.lookup(id) is Ok,
        ensures
            self.lookup(id) == Ok::<D, TextureLookupError>(*r),
    {
        match id {
            TextureId::Egui => self.texture.as_ref().unwrap(),
            TextureId::User(k) => {
                let i = k as usize;
                self.user_textures[i].as_ref().unwrap()
            },
        }
    }
}

/// A texture handed out by an allocation draws with the descriptor created for
/// it: once the pending uploads of a well-formed registry are recorded, the
/// `i`-th pending id looks up the `i`-th created descriptor.
pub proof fn lemma_uploaded_texture_draws<D>(
    before: TextureRegistry<D>,
    after: TextureRegistry<D>,
    created: Seq<D>,
    i: int,
)
    requires
        before.wf(),
        created.len() == before.pending_ids().len(),
        after.user() == before.user() + created.map_values(|d: D| Some(d)),
        after.user().len() <= usize::MAX,
        0 <= i < created.len(),
    ensures
        after.lookup(TextureId::User(before.pending_ids()[i])) == Ok::<D, TextureLookupError>(
            created[i],
        ),
{
    let k = before.pending_ids()[i];
    assert(k == before.user().len() + i);
    assert((k as usize) as int == k);
    assert(after.user()[k as int] == Some(created[i]));
}

/// A freed user texture is never drawn again: after freeing an uploaded id, a
/// draw with it finds it freed.
pub proof fn lemma_freed_texture_not_drawn<D>(
    before: TextureRegistry<D>,
    after: TextureRegistry<D>,
    k: u64,
)
    requires
        (k as usize) < before.user().len(),
        after.user() == before.user().update((k as usize) as int, None),
    ensures
        after.lookup(TextureId::User(k)) == Err::<D, TextureLookupError>(
            TextureLookupError::UserTextureFreed(k),
        ),
{
}

/// A freed texture stays freed: recording later uploads only appends
/// descriptors, so a draw with a freed id still finds it freed.
pub proof fn lemma_freed_stays_freed<D>(
    freed: TextureRegistry<D>,
    later: TextureRegistry<D>,
    created: Seq<D>,
    k: u64,
)
    requires
        freed.lookup(TextureId::User(k)) == Err::<D, TextureLookupError>(
            TextureLookupError::UserTextureFreed(k),
        ),
        later.user() == freed.user() + created.map_values(|d: D| Some(d)),
    ensures
        later.lookup(TextureId::User(k)) == Err::<D, TextureLookupError>(
            TextureLookupError::UserTextureFreed(k),
        ),
{
    assert(later.user()[(k as usize) as int] == freed.user()[(k as usize) as int]);
}

/// Allocation never hands out an id in use: in a well-formed registry the id
/// the next allocation returns is no pending id and no uploaded texture's id.
pub proof fn lemma_alloc_id_fresh<D>(s: TextureRegistry<D>)
    requires
        s.wf(),
    ensures
        forall|i: int|
            0 <= i < s.pending_ids().len() ==> #[trigger] s.pending_ids()[i] != s.next_id(),
        s.user().len() <= s.next_id(),
{
}

/// The font texture is uploaded once per version: once the upload of
/// `version` is recorded, a texture of the same version needs no upload and
/// the font texture draws with the recorded descriptor.
pub proof fn lemma_font_texture_current<D>(after: TextureRegistry<D>, version: u64, descriptor: D)
    requires
        after.egui_texture() == Some(descriptor),
        after.egui_version() == Some(version),
    ensures
        !after.upload_needed(version),
        after.lookup(TextureId::Egui) == Ok::<D, TextureLookupError>(descriptor),
{
}

/// A font texture needs an upload exactly when its version differs from the
/// uploaded one: with version `v` uploaded, every other version `w`, older or
/// newer, needs one and `v` itself does not; with none uploaded, every version
/// needs one.
pub proof fn lemma_upload_needed_iff_version_differs<D>(r: TextureRegistry<D>, w: u64)
    ensures
        r.egui_version() matches Some(v) ==> (r.upload_needed(w) <==> w != v),
        r.egui_version() is None ==> r.upload_needed(w),
{
}

} // verus!
