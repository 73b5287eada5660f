//! The renderer half of a backend: texture resolution shared by all
//! renderers, and one module per graphics API.
//!
//! Every renderer goes through a frame in the same way. It starts idle.
//! The first command of a draw list, the one with index offset zero, binds
//! the list: the list's geometry goes into the buffers and the projection
//! is set. Every command then sets its scissor rectangle, resolves its
//! texture and draws. A texture id that does not resolve fails that one
//! draw call; `draw` leaves it to the caller what to do then, and `render`
//! ends the frame there.

use vstd::prelude::*;
use crate::helper::ImGuiRendererError;

pub mod fna3d;
pub mod glow;
pub mod rokol;

pub use self::fna3d::ImGuiFna3d;
pub use self::glow::ImGuiGlow;
pub use self::rokol::ImGuiRokolGfx;

verus! {

/// Texture id reserved for the font atlas: the largest id there is.
pub const FONT_TEXTURE_ID: usize = usize::MAX;

/// One step of a rendered frame. `C` is the draw call of the backend.
#[derive(Debug, Clone, Copy, PartialEq, Eq)]
pub enum RenderOp<C> {
    /// Carry out a draw call.
    Call(C),
    /// Report a command that is not supported; it is skipped.
    Unsupported { list: usize, cmd: usize },
    /// Invoke the callback of command `cmd` of draw list `list`, now.
    ///
    /// Nothing is bound anew after a callback: the geometry and the
    /// projection that the list's first draw call has set are taken to be
    /// in place still when the callback returns. A backend whose state a
    /// callback may disturb has to set it up again itself.
    Callback { list: usize, cmd: usize },
}

/// A frame compiled for the backend: the steps to carry out in order, and
/// the error that ended the frame early, if one did.
#[derive(Debug)]
pub struct RenderPlan<C> {
    pub ops: Vec<RenderOp<C>>,
    pub error: Option<ImGuiRendererError>,
}

/// `imgui::Textures`, the GUI library's map from texture ids to textures.
/// Nothing inside it is visible to the verifier.
#[verifier::external_type_specification]
#[verifier::external_body]
#[verifier::reject_recursive_types(T)]
pub struct ExTextures<T>(imgui::Textures<T>);

/// The textures that an `imgui::Textures` holds, by id.
pub uninterp spec fn texture_entries(textures: imgui::Textures<usize>) -> Map<usize, usize>;

/// The id that an `imgui::Textures` hands out at its next `insert`.
pub uninterp spec fn texture_next_id(textures: imgui::Textures<usize>) -> usize;

/// `imgui::Textures::new`: the map starts empty and counts ids from zero.
#[verifier::external_body]
fn textures_new() -> (textures: imgui::Textures<usize>)
    ensures
        texture_entries(textures) == spec_no_entries(),
        texture_next_id(textures) == 0,
{
    imgui::Textures::new()
}

/// `imgui::Textures::insert`: stores the texture under the next id,
/// returns that id and advances the counter by one. The counter is a plain
/// `usize` addition, which overflows at the largest id; that call is left
/// out.
#[verifier::external_body]
fn textures_insert(textures: &mut imgui::Textures<usize>, texture: usize) -> (id: usize)
    requires
        texture_next_id(*old(textures)) < usize::MAX,
    ensures
        id == texture_next_id(*old(textures)),
        texture_entries(*final(textures)) == texture_entries(*old(textures)).insert(id, texture),
        texture_next_id(*final(textures)) == id + 1,
{
    textures.insert(texture).id()
}

/// `imgui::Textures::remove`: takes the entry of this id out of the map
/// and returns its texture, if there was one. The counter stays.
#[verifier::external_body]
fn textures_remove(textures: &mut imgui::Textures<usize>, id: usize) -> (removed: Option<usize>)
    ensures
        removed == spec_lookup(texture_entries(*old(textures)), id),
        texture_entries(*final(textures)) == texture_entries(*old(textures)).remove(id),
        texture_next_id(*final(textures)) == texture_next_id(*old(textures)),
{
    textures.remove(imgui::TextureId::new(id))
}

/// `imgui::Textures::get`: the texture stored under this id, if any.
#[verifier::external_body]
fn textures_get(textures: &imgui::Textures<usize>, id: usize) -> (found: Option<usize>)
    ensures
        found == spec_lookup(texture_entries(*textures), id),
{
    textures.get(imgui::TextureId::new(id)).copied()
}

/// The registry without any texture.
pub open spec fn spec_no_entries() -> Map<usize, usize> {
    Map::empty()
}

/// The entry of a map under a key, if it has one.
pub open spec fn spec_lookup(entries: Map<usize, usize>, id: usize) -> Option<usize> {
    if entries.contains_key(id) {
        Some(entries[id])
    } else {
        None
    }
}

/// What resolving a texture id gives: the font atlas for the reserved id
/// whatever the registry holds, the registered handle for a registered id,
/// and an error that carries the id otherwise.
pub open spec fn spec_resolve(font: usize, entries: Map<usize, usize>, id: usize) -> Result<
    usize,
    ImGuiRendererError,
> {
    if id == FONT_TEXTURE_ID {
        Ok(font)
    } else if entries.contains_key(id) {
        Ok(entries[id])
    } else {
        Err(ImGuiRendererError::BadTexture(id))
    }
}

/// Maps texture ids to backend-native texture handles.
///
/// The font atlas is kept apart from the registry, under
/// [`FONT_TEXTURE_ID`]. User textures get ids counted up from zero.
#[derive(Debug)]
pub struct TextureResolver {
    font: usize,
    registry: imgui::Textures<usize>,
    next: usize,
}

impl TextureResolver {
    /// Handle of the font atlas.
    pub closed spec fn font(&self) -> usize {
        self.font
    }

    /// The registered user textures: handle by id.
    pub closed spec fn registered(&self) -> Map<usize, usize> {
        texture_entries(self.registry)
    }

    /// The id that the next registration gets.
    pub closed spec fn next_id(&self) -> usize {
        self.next
    }

    /// Every registered id lies below the next one, and so below the
    /// reserved id.
    pub closed spec fn wf(&self) -> bool {
        &&& self.next == texture_next_id(self.registry)
        &&& forall|id: usize| #[trigger]
            texture_entries(self.registry).contains_key(id) ==> id < self.next
    }

    /// A resolver that knows the font atlas and no user texture.
    pub fn new(font: usize) -> (resolver: Self)
        ensures
            resolver.wf(),
            resolver.font() == font,
            resolver.registered() == spec_no_entries(),
            resolver.next_id() == 0,
    {
        TextureResolver { font, registry: textures_new(), next: 0 }
    }

    /// Registers a user texture and returns its id.
    ///
    /// Ids are handed out in order from zero. The reserved id is never
    /// handed out: once every other id is used up, nothing is registered
    /// and `None` is returned.
    pub fn register(&mut self, handle: usize) -> (id: Option<usize>)
        requires
            old(self).wf(),
        ensures
            final(self).wf(),
            final(self).font() == old(self).font(),
            old(self).next_id() == FONT_TEXTURE_ID ==> id.is_none() && final(self).registered()
                == old(self).registered() && final(self).next_id() == old(self).next_id(),
            old(self).next_id() != FONT_TEXTURE_ID ==> id == Some(old(self).next_id())
                && final(self).registered() == old(self).registered().insert(
                old(self).next_id(),
                handle,
            ) && final(self).next_id() == old(self).next_id() + 1,
    {
        if self.next == FONT_TEXTURE_ID {
            return None;
        }
        let id: usize = textures_insert(&mut self.registry, handle);
        self.next = id + 1;
        Some(id)
    }

    /// Takes a user texture out of the registry and returns its handle.
    /// An id that is not registered, the reserved one included, changes
    /// nothing.
    pub fn unregister(&mut self, id: usize) -> (handle: Option<usize>)
        requires
            old(self).wf(),
        ensures
            final(self).wf(),
            final(self).font() == old(self).font(),
            final(self).next_id() == old(self).next_id(),
            handle == spec_lookup(old(self).registered(), id),
            final(self).registered() == old(self).registered().remove(id),
    {
        textures_remove(&mut self.registry, id)
    }

    /// Resolves a texture id to a handle.
    pub fn resolve(&self, id: usize) -> (handle: Result<usize, ImGuiRendererError>)
        ensures
            handle == spec_resolve(self.font(), self.registered(), id),
    {
        if id == FONT_TEXTURE_ID {
            Ok(self.font)
        } else {
            match textures_get(&self.registry, id) {
                Some(handle) => Ok(handle),
                None => Err(ImGuiRendererError::BadTexture(id)),
            }
        }
    }
}

/// The reserved id resolves to the font atlas whatever the registry
/// holds.
pub proof fn lemma_font_id_resolves_to_font_atlas(font: usize, entries: Map<usize, usize>)
    ensures
        spec_resolve(font, entries, FONT_TEXTURE_ID) == Ok::<usize, ImGuiRendererError>(font),
{
}

/// An id that is neither reserved nor registered resolves to the error
/// that names it.
pub proof fn lemma_unregistered_id_is_bad_texture(
    font: usize,
    entries: Map<usize, usize>,
    id: usize,
)
    requires
        id != FONT_TEXTURE_ID,
        !entries.contains_key(id),
    ensures
        spec_resolve(font, entries, id) == Err::<usize, ImGuiRendererError>(
            ImGuiRendererError::BadTexture(id),
        ),
{
}

/// The registry never holds the reserved id: every id it holds was handed
/// out before, and lies below the next one.
pub proof fn lemma_font_id_is_never_registered(resolver: TextureResolver)
    requires
        resolver.wf(),
    ensures
        !resolver.registered().contains_key(FONT_TEXTURE_ID),
        forall|id: usize| #[trigger]
            resolver.registered().contains_key(id) ==> id < resolver.next_id(),
{
}

} // verus!
