//! Textures: the store of loaded images and the handles that refer into it.

use vstd::prelude::*;

verus! {

/// What the library keeps of a decoded image: its native size in pixels.
#[derive(Clone, Copy, Debug, PartialEq, Eq, Structural)]
pub struct TextureInfo {
    pub width: u32,
    pub height: u32,
}

/// All textures that have been loaded, in the order in which they were added.
///
/// A store starts out uninitialised and holds nothing until
/// [`init_texture_array`] is called on it. Once initialised it only grows:
/// entries are never removed, replaced or reordered, so an index that was
/// handed out stays good.
#[derive(Debug)]
pub struct TextureStore {
    entries: Option<Vec<TextureInfo>>,
}

/// A texture handle: an index into a [`TextureStore`]. It owns nothing.
#[derive(Clone, Copy, Debug, PartialEq, Eq, Structural)]
pub struct Texture {
    pub index: usize,
}

impl View for TextureStore {
    type V = Option<Seq<TextureInfo>>;

    /// `None` while uninitialised, else the entries in the order of their indices.
    closed spec fn view(&self) -> Option<Seq<TextureInfo>> {
        match self.entries {
            Some(entries) => Some(entries@),
            None => None,
        }
    }
}

impl TextureStore {
    /// Whether the store has been initialised.
    pub open spec fn initialized(&self) -> bool {
        self@ is Some
    }

    /// The number of entries; zero while uninitialised.
    pub open spec fn spec_len(&self) -> nat {
        match self@ {
            Some(entries) => entries.len(),
            None => 0,
        }
    }

    /// Whether `texture` refers to an entry of this store.
    pub open spec fn holds(&self, texture: Texture) -> bool {
        texture.index < self.spec_len()
    }

    /// Whether a lookup of `index` runs without fault: every lookup in an
    /// uninitialised store does (it finds nothing), one in an initialised
    /// store only for an index that was handed out.
    pub open spec fn admits(&self, index: usize) -> bool {
        self.initialized() ==> index < self.spec_len()
    }

    /// Whether `later` is this store after zero or more additions.
    pub open spec fn grown_to(&self, later: &TextureStore) -> bool {
        match (self@, later@) {
            (Some(before), Some(after)) => before.len() <= after.len() && after.subrange(
                0,
                before.len() as int,
            ) == before,
            (None, _) => true,
            (Some(_), None) => false,
        }
    }

    /// A store that has not been initialised yet.
    pub fn new() -> (store: TextureStore)
        ensures
            store@ is None,
    {
        TextureStore { entries: None }
    }

    /// The number of entries; zero while uninitialised.
    pub fn len(&self) -> (n: usize)
        ensures
            n == self.spec_len(),
    {
        match &self.entries {
            Some(entries) => entries.len(),
            None => 0,
        }
    }
}

/// Initialise the store. On a store that is initialised already this does nothing.
pub fn init_texture_array(store: &mut TextureStore)
    ensures
        final(store)@ == (match old(store)@ {
            Some(entries) => Some(entries),
            None => Some(Seq::empty()),
        }),
{
    if store.entries.is_none() {
        store.entries = Some(Vec::new());
    }
}

/// The entry at `index`, or `None` while the store is uninitialised.
///
/// In an initialised store `index` has to be one that was handed out.
pub fn texture_array(store: &TextureStore, index: usize) -> (entry: Option<&TextureInfo>)
    requires
        store.admits(index),
    ensures
        entry == (match store@ {
            Some(entries) => Some(&entries[index as int]),
            None => None,
        }),
{
    match &store.entries {
        Some(entries) => Some(&entries[index]),
        None => None,
    }
}

/// Append `texture` and return the handle of the new entry, which is the
/// number of entries there were before. On an uninitialised store nothing is
/// added and the result is `None`.
pub fn texture_array_add(store: &mut TextureStore, texture: TextureInfo) -> (handle: Option<
    Texture,
>)
    ensures
        match old(store)@ {
            Some(entries) => {
                &&& final(store)@ == Some(entries.push(texture))
                &&& handle == Some(Texture { index: entries.len() as usize })
            },
            None => final(store)@ is None && handle is None,
        },
        old(store).grown_to(final(store)),
{
    match &mut store.entries {
        Some(entries) => {
            let ghost before = entries@;
            entries.push(texture);
            assert(entries@.subrange(0, before.len() as int) =~= before);
            Some(Texture { index: entries.len() - 1 })
        },
        None => None,
    }
}

/// The ratio `numerator / denominator` of a texture of the given size, with a
/// denominator that is never zero: `width / height`, and `0 / 1` for a texture
/// of no height.
pub open spec fn aspect_of(info: TextureInfo) -> (u32, u32) {
    if info.height > 0 {
        (info.width, info.height)
    } else {
        (0, 1)
    }
}

/// The height that keeps the aspect ratio `aspect` at the given `width`:
/// `width / aspect` rounded down, zero where the ratio is zero, and the
/// largest `u32` where the quotient is larger than that.
pub open spec fn height_for(aspect: (u32, u32), width: u32) -> u32 {
    if aspect.0 == 0 {
        0
    } else if width * aspect.1 / (aspect.0 as int) > u32::MAX {
        u32::MAX
    } else {
        (width * aspect.1 / (aspect.0 as int)) as u32
    }
}

impl Texture {
    /// The size of the texture in `store`, `(0, 0)` while `store` is uninitialised.
    pub open spec fn spec_info(&self, store: &TextureStore) -> TextureInfo {
        match store@ {
            Some(entries) => entries[self.index as int],
            None => TextureInfo { width: 0, height: 0 },
        }
    }

    /// The entry this handle refers to, or `None` while `store` is uninitialised.
    pub fn info<'a>(&self, store: &'a TextureStore) -> (entry: Option<&'a TextureInfo>)
        requires
            store.admits(self.index),
        ensures
            entry == (match store@ {
                Some(entries) => Some(&entries[self.index as int]),
                None => None,
            }),
    {
        texture_array(store, self.index)
    }

    /// The width of the texture in pixels; zero while `store` is uninitialised.
    pub fn width(&self, store: &TextureStore) -> (pixels: u32)
        requires
            store.admits(self.index),
        ensures
            pixels == self.spec_info(store).width,
    {
        match self.info(store) {
            Some(info) => info.width,
            None => 0,
        }
    }

    /// The height of the texture in pixels; zero while `store` is uninitialised.
    pub fn height(&self, store: &TextureStore) -> (pixels: u32)
        requires
            store.admits(self.index),
        ensures
            pixels == self.spec_info(store).height,
    {
        match self.info(store) {
            Some(info) => info.height,
            None => 0,
        }
    }

    /// The aspect ratio of the texture, `width / height`, as numerator and
    /// denominator. The denominator is never zero: for a texture of no height
    /// the ratio is `0 / 1`.
    pub fn aspect(&self, store: &TextureStore) -> (ratio: (u32, u32))
        requires
            store.admits(self.index),
        ensures
            ratio == aspect_of(self.spec_info(store)),
            ratio.1 > 0,
    {
        let h: u32 = self.height(store);
        if h > 0 {
            (self.width(store), h)
        } else {
            (0, 1)
        }
    }

    /// The height at which the texture keeps its aspect ratio when drawn
    /// `width` wide.
    pub fn height_at(&self, store: &TextureStore, width: u32) -> (height: u32)
        requires
            store.admits(self.index),
        ensures
            height == height_for(aspect_of(self.spec_info(store)), width),
    {
        let (numerator, denominator) = self.aspect(store);
        if numerator == 0 {
            0
        } else {
            assert(width * denominator <= 0xFFFF_FFFF * 0xFFFF_FFFF) by (nonlinear_arith)
                requires
                    width <= 0xFFFF_FFFF,
                    denominator <= 0xFFFF_FFFF,
            ;
            let scaled: u64 = width as u64 * denominator as u64;
            let quotient: u64 = scaled / numerator as u64;
            if quotient > u32::MAX as u64 {
                u32::MAX
            } else {
                quotient as u32
            }
        }
    }
}

/// A texture twice as wide as high is drawn half as high as wide.
pub proof fn lemma_height_of_two_to_one(width: u32)
    ensures
        height_for(aspect_of(TextureInfo { width: 200, height: 100 }), width) == width / 2,
{
}

/// A texture of no height is drawn with no height, whatever the width.
pub proof fn lemma_height_of_flat_texture(native_width: u32, width: u32)
    ensures
        height_for(aspect_of(TextureInfo { width: native_width, height: 0 }), width) == 0,
{
}

/// A handle stays good while the store grows, and goes on referring to the
/// same entry.
pub proof fn lemma_growth_keeps_textures(
    before: &TextureStore,
    after: &TextureStore,
    texture: Texture,
)
    requires
        before.grown_to(after),
        before.holds(texture),
    ensures
        after.holds(texture),
        texture.spec_info(after) == texture.spec_info(before),
{
    let earlier = before@->0;
    let later = after@->0;
    assert(later.subrange(0, earlier.len() as int)[texture.index as int] == later[texture.index as int]);
}

} // verus!
