//! Fonts: the store of loaded fonts, the built-in default font, and the
//! handles that refer into the store.

use vstd::prelude::*;

verus! {

/// What the library keeps of a decoded font: the name of its family.
#[derive(Clone, Debug, PartialEq, Eq)]
pub struct FontInfo {
    pub family: String,
}

impl View for FontInfo {
    type V = Seq<char>;

    /// The family name.
    open spec fn view(&self) -> Seq<char> {
        self.family@
    }
}

/// A font handle: an index into a [`FontStore`]. It owns nothing.
#[derive(Clone, Copy, Debug, PartialEq, Eq, Structural)]
pub struct Font {
    pub index: usize,
}

/// All fonts that have been loaded, in the order in which they were added,
/// and the default font that is built into the program.
///
/// The list of loaded fonts starts out uninitialised and holds nothing until
/// [`init_font_store`] is called. Once initialised it only grows. The default
/// font is decoded at most once; if that fails there is none.
#[derive(Debug)]
pub struct FontStore {
    entries: Option<Vec<FontInfo>>,
    default_tried: bool,
    default_font: Option<FontInfo>,
}

/// The state of a [`FontStore`].
pub struct FontStoreView {
    /// The family names of the loaded fonts by index; `None` while uninitialised.
    pub fonts: Option<Seq<Seq<char>>>,
    /// Whether decoding the default font has been tried.
    pub default_tried: bool,
    /// The family name of the default font, if there is one.
    pub default_font: Option<Seq<char>>,
}

impl View for FontStore {
    type V = FontStoreView;

    closed spec fn view(&self) -> FontStoreView {
        FontStoreView {
            fonts: match self.entries {
                Some(entries) => Some(entries@.map_values(|info: FontInfo| info@)),
                None => None,
            },
            default_tried: self.default_tried,
            default_font: match self.default_font {
                Some(info) => Some(info@),
                None => None,
            },
        }
    }
}

impl FontStore {
    /// Whether the list of loaded fonts has been initialised.
    pub open spec fn initialized(&self) -> bool {
        self@.fonts is Some
    }

    /// The number of loaded fonts; zero while uninitialised.
    pub open spec fn spec_len(&self) -> nat {
        match self@.fonts {
            Some(names) => names.len(),
            None => 0,
        }
    }

    /// Whether `font` refers to a loaded font of this store.
    pub open spec fn holds(&self, font: Font) -> bool {
        font.index < self.spec_len()
    }

    /// Whether a lookup of `index` runs without fault: every lookup in an
    /// uninitialised store does (it finds nothing), one in an initialised
    /// store only for an index that was handed out.
    pub open spec fn admits(&self, index: usize) -> bool {
        self.initialized() ==> index < self.spec_len()
    }

    /// Whether `later` is this store after zero or more additions.
    pub open spec fn grown_to(&self, later: &FontStore) -> bool {
        match (self@.fonts, later@.fonts) {
            (Some(before), Some(after)) => before.len() <= after.len() && after.subrange(
                0,
                before.len() as int,
            ) == before,
            (None, _) => true,
            (Some(_), None) => false,
        }
    }

    /// A store with an uninitialised list of fonts and a default font that
    /// has not been tried.
    pub fn new() -> (store: FontStore)
        ensures
            store@ == (FontStoreView { fonts: None, default_tried: false, default_font: None }),
    {
        FontStore { entries: None, default_tried: false, default_font: None }
    }

    /// The number of loaded fonts; zero while uninitialised.
    pub fn len(&self) -> (n: usize)
        ensures
            n == self.spec_len(),
    {
        match &self.entries {
            Some(entries) => entries.len(),
            None => 0,
        }
    }

    /// Whether decoding the default font has been tried, so that no caller
    /// needs to decode it again.
    pub fn default_font_tried(&self) -> (tried: bool)
        ensures
            tried == self@.default_tried,
    {
        self.default_tried
    }
}

/// Record the outcome of decoding the built-in default font: `decoded` is the
/// font, or `None` if it could not be decoded.
///
/// Only the first call counts. It fixes the default font for good and
/// returns whether a warning is due, which is when there is no default font.
/// Every later call leaves the store as it is and returns `false`.
pub fn init_default_font(store: &mut FontStore, decoded: Option<FontInfo>) -> (warn: bool)
    ensures
        old(store)@.default_tried ==> final(store)@ == old(store)@ && !warn,
        !old(store)@.default_tried ==> {
            &&& final(store)@ == (FontStoreView {
                default_tried: true,
                default_font: match decoded {
                    Some(info) => Some(info@),
                    None => None,
                },
                ..old(store)@
            })
            &&& warn == (decoded is None)
        },
{
    if !store.default_tried {
        store.default_tried = true;
        let warn = decoded.is_none();
        store.default_font = decoded;
        warn
    } else {
        false
    }
}

/// The default font, if decoding it has been tried and has succeeded.
pub fn default_font(store: &FontStore) -> (font: Option<&FontInfo>)
    ensures
        match font {
            Some(info) => store@.default_font == Some(info@),
            None => store@.default_font is None,
        },
{
    store.default_font.as_ref()
}

/// Initialise the list of loaded fonts. On a store whose list is
/// initialised already this does nothing.
pub fn init_font_store(store: &mut FontStore)
    ensures
        final(store)@ == (FontStoreView {
            fonts: match old(store)@.fonts {
                Some(names) => Some(names),
                None => Some(Seq::empty()),
            },
            ..old(store)@
        }),
{
    if store.entries.is_none() {
        store.entries = Some(Vec::new());
        assert(Seq::<FontInfo>::empty().map_values(|info: FontInfo| info@) =~= Seq::<
            Seq<char>,
        >::empty());
    }
}

/// The font that `font` refers to, or `None` while the list of loaded fonts
/// is uninitialised.
///
/// In an initialised store `font` has to be a handle that was handed out.
pub fn font_store(store: &FontStore, font: Font) -> (entry: Option<&FontInfo>)
    requires
        store.admits(font.index),
    ensures
        match entry {
            Some(info) => store@.fonts is Some && info@ == store@.fonts->0[font.index as int],
            None => store@.fonts is None,
        },
{
    match &store.entries {
        Some(entries) => Some(&entries[font.index]),
        None => None,
    }
}

/// Append `font` and return the handle of the new entry, which is the number
/// of entries there were before. On an uninitialised store nothing is added
/// and the result is `None`.
pub fn font_store_add(store: &mut FontStore, font: FontInfo) -> (handle: Option<Font>)
    ensures
        match old(store)@.fonts {
            Some(names) => {
                &&& final(store)@ == (FontStoreView {
                    fonts: Some(names.push(font@)),
                    ..old(store)@
                })
                &&& handle == Some(Font { index: names.len() as usize })
            },
            None => final(store)@ == old(store)@ && handle is None,
        },
        old(store).grown_to(final(store)),
{
    match &mut store.entries {
        Some(entries) => {
            let ghost before = entries@;
            let ghost name = font@;
            entries.push(font);
            proof {
                let names = before.map_values(|info: FontInfo| info@);
                assert(entries@.map_values(|info: FontInfo| info@) =~= names.push(name));
                assert(names.push(name).subrange(0, names.len() as int) =~= names);
            }
            Some(Font { index: entries.len() - 1 })
        },
        None => None,
    }
}

impl Font {
    /// The family name of the font in `store`; empty while `store` is uninitialised.
    pub open spec fn spec_name(&self, store: &FontStore) -> Seq<char> {
        match store@.fonts {
            Some(names) => names[self.index as int],
            None => Seq::empty(),
        }
    }

    /// The family name of the font, or the empty string while the list of
    /// loaded fonts is uninitialised.
    pub fn name(&self, store: &FontStore) -> (family: String)
        requires
            store.admits(self.index),
        ensures
            family@ == self.spec_name(store),
    {
        match font_store(store, *self) {
            Some(info) => info.family.clone(),
            None => String::new(),
        }
    }
}

/// A handle stays good while the store grows, and goes on referring to the
/// same font.
pub proof fn lemma_growth_keeps_fonts(before: &FontStore, after: &FontStore, font: Font)
    requires
        before.grown_to(after),
        before.holds(font),
    ensures
        after.holds(font),
        font.spec_name(after) == font.spec_name(before),
{
    let earlier = before@.fonts->0;
    let later = after@.fonts->0;
    assert(later.subrange(0, earlier.len() as int)[font.index as int] == later[font.index as int]);
}

} // verus!
