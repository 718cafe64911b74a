//! Fonts by name, loaded on first use and kept, with a built-in fallback.
use crate::primitive::TextFont;
use vstd::prelude::*;

verus! {

#[verifier::external_type_specification]
#[verifier::external_body]
pub struct ExFace(fontdue::Font);

/// A font of the registry: the fallback, or the loaded font at an index.
#[derive(Debug, Clone, Copy, PartialEq, Eq, Structural)]
pub enum FontRef {
    Fallback,
    Loaded(usize),
}

/// A font that could not be loaded: its name and the decoder's message.
#[derive(Debug, Clone)]
pub struct FontWarning {
    pub name: String,
    pub error: String,
}

/// Why `fontdue` cannot decode the bytes as a font file with default
/// settings; none where it can.
pub uninterp spec fn font_decode_error(bytes: Seq<u8>) -> Option<Seq<char>>;

/// Whether `fontdue` decodes the bytes as a font file, with default settings.
pub open spec fn decodes_font(bytes: Seq<u8>) -> bool {
    font_decode_error(bytes) is None
}

/// The name and message of each warning, in order.
pub open spec fn warning_views(ws: Seq<FontWarning>) -> Seq<(Seq<char>, Seq<char>)> {
    ws.map_values(|w: FontWarning| (w.name@, w.error@))
}

/// Whether `r` is the font that `font` resolves to once `names` are loaded:
/// the first font loaded under its name, else the fallback.
pub open spec fn resolved_in(r: FontRef, font: TextFont, names: Seq<Seq<char>>) -> bool {
    match font {
        TextFont::Default => r == FontRef::Fallback,
        TextFont::External { name, .. } => if names.contains(name@) {
            r matches FontRef::Loaded(i) && i < names.len() && names[i as int] == name@
                && forall|j: int| 0 <= j < i ==> names[j] != name@
        } else {
            r == FontRef::Fallback
        },
    }
}

/// Relies on `fontdue::Font::from_bytes` with default settings: it parses
/// the bytes alone, and decodes a font file or says why it cannot.
#[verifier::external_body]
fn decode_font(bytes: &[u8]) -> (r: Result<fontdue::Font, String>)
    ensures
        match r {
            Ok(_) => font_decode_error(bytes@) is None,
            Err(e) => font_decode_error(bytes@) == Some(e@),
        },
{
    fontdue::Font::from_bytes(bytes, fontdue::FontSettings::default()).map_err(|e| e.to_string())
}

/// The fonts loaded so far, by name, and the fallback.
pub struct FontRegistry {
    names: Vec<String>,
    faces: Vec<fontdue::Font>,
    fallback: fontdue::Font,
}

impl FontRegistry {
    /// The names of the loaded fonts, in the order they were loaded.
    pub closed spec fn names_view(self) -> Seq<Seq<char>> {
        self.names@.map_values(|n: String| n@)
    }

    pub closed spec fn wf(self) -> bool {
        &&& self.names@.len() == self.faces@.len()
        &&& forall|i: int, j: int|
            0 <= i < j < self.names@.len() ==> self.names_view()[i] != self.names_view()[j]
    }

    /// The font that `r` refers to.
    pub closed spec fn face_of(self, r: FontRef) -> fontdue::Font {
        match r {
            FontRef::Fallback => self.fallback,
            FontRef::Loaded(i) => self.faces@[i as int],
        }
    }

    /// Whether `r` refers to a font of this registry.
    pub open spec fn holds(self, r: FontRef) -> bool {
        match r {
            FontRef::Fallback => true,
            FontRef::Loaded(i) => i < self.names_view().len(),
        }
    }

    /// A registry with the given fallback font, decoded from `bytes`; none
    /// where they do not decode.
    pub fn new(fallback_bytes: &[u8]) -> (r: Option<FontRegistry>)
        ensures
            r is Some == decodes_font(fallback_bytes@),
            r matches Some(reg) ==> reg.wf() && reg.names_view() == Seq::<Seq<char>>::empty(),
    {
        match decode_font(fallback_bytes) {
            Ok(fallback) => {
                let reg = FontRegistry { names: Vec::new(), faces: Vec::new(), fallback };
                assert(reg.names_view() =~= Seq::<Seq<char>>::empty());
                Some(reg)
            },
            Err(_) => None,
        }
    }

    fn find(&self, name: &String) -> (r: Option<usize>)
        ensures
            match r {
                Some(i) => i < self.names_view().len() && self.names_view()[i as int] == name@
                    && forall|j: int| 0 <= j < i ==> self.names_view()[j] != name@,
                None => !self.names_view().contains(name@),
            },
    {
        let mut i: usize = 0;
        while i < self.names.len()
            invariant
                i <= self.names@.len(),
                forall|j: int| 0 <= j < i ==> self.names_view()[j] != name@,
            decreases self.names@.len() - i,
        {
            if self.names[i] == *name {
                return Some(i);
            }
            i = i + 1;
        }
        None
    }

    /// Resolves a font. The default font is the fallback. A name loaded
    /// before gives that font. Otherwise the bytes are decoded: on success
    /// the font is kept under its name; on failure the fallback stands in,
    /// with a warning that names the font and the error.
    pub fn resolve(&mut self, font: &TextFont) -> (r: (FontRef, Option<FontWarning>))
        requires
            old(self).wf(),
        ensures
            final(self).wf(),
            final(self).holds(r.0),
            forall|i: usize|
                i < old(self).names_view().len() ==> #[trigger] final(self).face_of(FontRef::Loaded(i))
                    == old(self).face_of(FontRef::Loaded(i)),
            final(self).face_of(FontRef::Fallback) == old(self).face_of(FontRef::Fallback),
            old(self).names_view().is_prefix_of(final(self).names_view()),
            resolved_in(r.0, *font, final(self).names_view()),
            match font {
                TextFont::Default => r == (FontRef::Fallback, None::<FontWarning>)
                    && final(self).names_view() == old(self).names_view(),
                TextFont::External { name, .. } => if old(self).names_view().contains(name@) {
                    r.1 is None && final(self).names_view() == old(self).names_view()
                        && (r.0 matches FontRef::Loaded(i) && i < old(self).names_view().len()
                        && old(self).names_view()[i as int] == name@
                        && forall|j: int| 0 <= j < i ==> old(self).names_view()[j] != name@)
                } else if decodes_font(font->bytes@) {
                    r.0 == FontRef::Loaded(old(self).names_view().len() as usize) && r.1 is None
                        && final(self).names_view() == old(self).names_view().push(name@)
                } else {
                    r.0 == FontRef::Fallback && final(self).names_view() == old(self).names_view()
                        && (r.1 matches Some(w) && w.name@ == name@
                        && font_decode_error(font->bytes@) == Some(w.error@))
                },
            },
    {
        match font {
            TextFont::Default => (FontRef::Fallback, None),
            TextFont::External { name, bytes } => {
                match self.find(name) {
                    Some(i) => {
                        proof {
                            assert(self.names_view()[i as int] == name@);
                        }
                        (FontRef::Loaded(i), None)
                    },
                    None => {
                        match decode_font(bytes.as_slice()) {
                            Ok(face) => {
                                let i = self.names.len();
                                self.names.push(name.clone());
                                self.faces.push(face);
                                proof {
                                    assert(self.names_view() =~= old(self).names_view().push(name@));
                                    assert(self.names_view()[i as int] == name@);
                                    assert(self.names_view().contains(name@));
                                    assert forall|j: int| 0 <= j < i implies self.names_view()[j] != name@ by {
                                        assert(self.names_view()[j] == old(self).names_view()[j]);
                                    }
                                }
                                (FontRef::Loaded(i), None)
                            },
                            Err(error) => (FontRef::Fallback, Some(FontWarning { name: name.clone(), error })),
                        }
                    },
                }
            },
        }
    }

    /// Whether a font was loaded at index `i`.
    pub fn has_loaded(&self, i: usize) -> (r: bool)
        requires
            self.wf(),
        ensures
            r == self.holds(FontRef::Loaded(i)),
    {
        i < self.names.len()
    }

    /// The font that `r` refers to.
    pub fn face(&self, r: FontRef) -> (f: &fontdue::Font)
        requires
            self.wf(),
            self.holds(r),
        ensures
            *f == self.face_of(r),
    {
        match r {
            FontRef::Fallback => &self.fallback,
            FontRef::Loaded(i) => &self.faces[i],
        }
    }
}

} // verus!
