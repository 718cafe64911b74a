//! The caches of text layout: the glyph positions of each shaped run, and
//! the coverage bitmap of each rasterized glyph.
use crate::font::FontRef;
use vstd::prelude::*;

verus! {

/// What identifies a shaping request: the text, the size as its exact bit
/// pattern, and the font by name (none for the built-in font).
#[derive(Debug, Clone)]
pub struct LayoutKey {
    pub content: String,
    pub size: u32,
    pub font: Option<String>,
}

/// The value of a layout key.
pub type LayoutKeyView = (Seq<char>, u32, Option<Seq<char>>);

impl LayoutKey {
    pub open spec fn view(&self) -> LayoutKeyView {
        (
            self.content@,
            self.size,
            match self.font {
                Some(n) => Some(n@),
                None => None,
            },
        )
    }

    /// Whether two keys are equal.
    pub fn same(&self, other: &LayoutKey) -> (r: bool)
        ensures
            r == (self.view() == other.view()),
    {
        if self.size != other.size {
            return false;
        }
        if self.content != other.content {
            return false;
        }
        match (&self.font, &other.font) {
            (None, None) => true,
            (Some(a), Some(b)) => *a == *b,
            _ => false,
        }
    }
}

/// A glyph placed by shaping: its character and size, its position (as
/// `f32` bit patterns) and the size of its bitmap.
#[derive(Debug, Clone, Copy, PartialEq, Eq, Structural)]
pub struct GlyphPos {
    pub c: char,
    pub px: u32,
    pub x: u32,
    pub y: u32,
    pub width: usize,
    pub height: usize,
}

/// The shaped glyph positions of each text run measured so far.
#[derive(Debug)]
pub struct LayoutCache {
    entries: Vec<(LayoutKey, Vec<GlyphPos>)>,
}

/// Whether the keys of the entries are distinct.
pub open spec fn distinct_keys<V>(keys: Seq<(LayoutKeyView, V)>) -> bool {
    forall|i: int, j: int| 0 <= i < keys.len() && 0 <= j < keys.len() && i != j ==> keys[i].0 != keys[j].0
}

impl LayoutCache {
    /// The entries, by the values of their keys.
    pub closed spec fn entries_view(self) -> Seq<(LayoutKeyView, Seq<GlyphPos>)> {
        self.entries@.map_values(|e: (LayoutKey, Vec<GlyphPos>)| (e.0.view(), e.1@))
    }

    /// The cache as a map from key to glyph positions.
    pub open spec fn view(self) -> Map<LayoutKeyView, Seq<GlyphPos>> {
        Map::new(
            |k: LayoutKeyView| exists|i: int| 0 <= i < self.entries_view().len() && self.entries_view()[i].0 == k,
            |k: LayoutKeyView|
                self.entries_view()[choose|i: int| 0 <= i < self.entries_view().len() && self.entries_view()[i].0 == k].1,
        )
    }

    pub open spec fn wf(self) -> bool {
        distinct_keys(self.entries_view())
    }

    /// An empty cache.
    pub fn new() -> (r: LayoutCache)
        ensures
            r.wf(),
            r.view() == Map::<LayoutKeyView, Seq<GlyphPos>>::empty(),
    {
        let r = LayoutCache { entries: Vec::new() };
        assert(r.view() =~= Map::<LayoutKeyView, Seq<GlyphPos>>::empty());
        r
    }

    fn find(&self, key: &LayoutKey) -> (r: Option<usize>)
        ensures
            match r {
                Some(i) => i < self.entries_view().len() && self.entries_view()[i as int].0 == key.view(),
                None => forall|i: int| 0 <= i < self.entries_view().len() ==> self.entries_view()[i].0 != key.view(),
            },
    {
        let mut i: usize = 0;
        while i < self.entries.len()
            invariant
                i <= self.entries@.len(),
                forall|j: int| 0 <= j < i ==> self.entries_view()[j].0 != key.view(),
            decreases self.entries@.len() - i,
        {
            if self.entries[i].0.same(key) {
                return Some(i);
            }
            i = i + 1;
        }
        None
    }

    /// The glyph positions stored under `key`, if any.
    pub fn get(&self, key: &LayoutKey) -> (r: Option<Vec<GlyphPos>>)
        requires
            self.wf(),
        ensures
            match r {
                Some(g) => self.view().contains_key(key.view()) && g@ == self.view()[key.view()],
                None => !self.view().contains_key(key.view()),
            },
    {
        match self.find(key) {
            Some(i) => {
                let g = self.entries[i].1.clone();
                proof {
                    let k = key.view();
                    let ev = self.entries_view();
                    assert(ev[i as int].0 == k);
                    let j = choose|j: int| 0 <= j < ev.len() && ev[j].0 == k;
                    assert(j == i);
                    assert(g@ == ev[i as int].1);
                }
                Some(g)
            },
            None => None,
        }
    }

    /// Stores `glyphs` under `key`, replacing what was stored there.
    pub fn insert(&mut self, key: LayoutKey, glyphs: Vec<GlyphPos>)
        requires
            old(self).wf(),
        ensures
            final(self).wf(),
            final(self).view() == old(self).view().insert(key.view(), glyphs@),
    {
        let ghost k = key.view();
        let ghost gv = glyphs@;
        match self.find(&key) {
            Some(i) => {
                self.entries.set(i, (key, glyphs));
                proof {
                    let ev = self.entries_view();
                    let ov = old(self).entries_view();
                    assert(ev == ov.update(i as int, (k, gv)));
                    assert forall|kk: LayoutKeyView| #[trigger] self.view().contains_key(kk) == old(self).view().insert(k, gv).contains_key(kk) by {
                        if kk != k {
                            if old(self).view().contains_key(kk) {
                                let j = choose|j: int| 0 <= j < ov.len() && ov[j].0 == kk;
                                assert(ev[j].0 == kk);
                            }
                        } else {
                            assert(ev[i as int].0 == kk);
                        }
                    }
                    assert forall|kk: LayoutKeyView| #[trigger] self.view().contains_key(kk) implies self.view()[kk] == old(self).view().insert(k, gv)[kk] by {
                        let j = choose|j: int| 0 <= j < ev.len() && ev[j].0 == kk;
                        if kk == k {
                            assert(j == i);
                        } else {
                            let j2 = choose|j: int| 0 <= j < ov.len() && ov[j].0 == kk;
                            assert(ev[j2].0 == kk);
                            assert(j == j2);
                        }
                    }
                    assert(self.view() =~= old(self).view().insert(k, gv));
                }
            },
            None => {
                self.entries.push((key, glyphs));
                proof {
                    let ev = self.entries_view();
                    let ov = old(self).entries_view();
                    assert(ev == ov.push((k, gv)));
                    assert forall|kk: LayoutKeyView| #[trigger] self.view().contains_key(kk) == old(self).view().insert(k, gv).contains_key(kk) by {
                        if kk != k {
                            if old(self).view().contains_key(kk) {
                                let j = choose|j: int| 0 <= j < ov.len() && ov[j].0 == kk;
                                assert(ev[j].0 == kk);
                            }
                        } else {
                            assert(ev[ov.len() as int].0 == kk);
                        }
                    }
                    assert forall|kk: LayoutKeyView| #[trigger] self.view().contains_key(kk) implies self.view()[kk] == old(self).view().insert(k, gv)[kk] by {
                        let j = choose|j: int| 0 <= j < ev.len() && ev[j].0 == kk;
                        if kk == k {
                            assert(j == ov.len());
                        } else {
                            let j2 = choose|j: int| 0 <= j < ov.len() && ov[j].0 == kk;
                            assert(ev[j2].0 == kk);
                            assert(j == j2);
                        }
                    }
                    assert(self.view() =~= old(self).view().insert(k, gv));
                }
            },
        }
    }
}

} // verus!

verus! {

/// What identifies a rasterized glyph: its font, character and pixel size
/// (an `f32` bit pattern).
#[derive(Debug, Clone, Copy, PartialEq, Eq, Structural)]
pub struct GlyphKey {
    pub font: FontRef,
    pub c: char,
    pub px: u32,
}

/// A rasterized glyph: `width` by `height` coverage values, row by row,
/// from 0 (none) to 255 (full).
#[derive(Debug, Clone)]
pub struct GlyphBitmap {
    pub width: usize,
    pub height: usize,
    pub coverage: Vec<u8>,
}

/// The value of a glyph bitmap.
pub type GlyphBitmapView = (usize, usize, Seq<u8>);

impl GlyphBitmap {
    pub open spec fn view(&self) -> GlyphBitmapView {
        (self.width, self.height, self.coverage@)
    }
}

/// The bitmap of each glyph rasterized so far.
#[derive(Debug)]
pub struct GlyphCache {
    entries: Vec<(GlyphKey, GlyphBitmap)>,
}

impl GlyphCache {
    /// The entries, by value.
    pub closed spec fn entries_view(self) -> Seq<(GlyphKey, GlyphBitmapView)> {
        self.entries@.map_values(|e: (GlyphKey, GlyphBitmap)| (e.0, e.1.view()))
    }

    /// The cache as a map from key to bitmap.
    pub open spec fn view(self) -> Map<GlyphKey, GlyphBitmapView> {
        Map::new(
            |k: GlyphKey| exists|i: int| 0 <= i < self.entries_view().len() && self.entries_view()[i].0 == k,
            |k: GlyphKey|
                self.entries_view()[choose|i: int| 0 <= i < self.entries_view().len() && self.entries_view()[i].0 == k].1,
        )
    }

    pub open spec fn wf(self) -> bool {
        forall|i: int, j: int|
            0 <= i < self.entries_view().len() && 0 <= j < self.entries_view().len() && i != j
                ==> self.entries_view()[i].0 != self.entries_view()[j].0
    }

    /// An empty cache.
    pub fn new() -> (r: GlyphCache)
        ensures
            r.wf(),
            r.view() == Map::<GlyphKey, GlyphBitmapView>::empty(),
    {
        let r = GlyphCache { entries: Vec::new() };
        assert(r.view() =~= Map::<GlyphKey, GlyphBitmapView>::empty());
        r
    }

    fn find(&self, key: GlyphKey) -> (r: Option<usize>)
        ensures
            match r {
                Some(i) => i < self.entries_view().len() && self.entries_view()[i as int].0 == key,
                None => forall|i: int| 0 <= i < self.entries_view().len() ==> self.entries_view()[i].0 != key,
            },
    {
        let mut i: usize = 0;
        while i < self.entries.len()
            invariant
                i <= self.entries@.len(),
                forall|j: int| 0 <= j < i ==> self.entries_view()[j].0 != key,
            decreases self.entries@.len() - i,
        {
            if self.entries[i].0 == key {
                return Some(i);
            }
            i = i + 1;
        }
        None
    }

    /// The bitmap stored under `key`, if any.
    pub fn get(&self, key: GlyphKey) -> (r: Option<&GlyphBitmap>)
        requires
            self.wf(),
        ensures
            match r {
                Some(b) => self.view().contains_key(key) && b.view() == self.view()[key],
                None => !self.view().contains_key(key),
            },
    {
        match self.find(key) {
            Some(i) => {
                proof {
                    let ev = self.entries_view();
                    let j = choose|j: int| 0 <= j < ev.len() && ev[j].0 == key;
                    assert(j == i);
                }
                Some(&self.entries[i].1)
            },
            None => None,
        }
    }

    /// Stores `bitmap` under `key`, where nothing is stored yet.
    pub fn insert(&mut self, key: GlyphKey, bitmap: GlyphBitmap)
        requires
            old(self).wf(),
            !old(self).view().contains_key(key),
        ensures
            final(self).wf(),
            final(self).view() == old(self).view().insert(key, bitmap.view()),
    {
        let ghost bv = bitmap.view();
        self.entries.push((key, bitmap));
        proof {
            let ev = self.entries_view();
            let ov = old(self).entries_view();
            assert(ev == ov.push((key, bv)));
            assert forall|kk: GlyphKey| #[trigger] self.view().contains_key(kk) == old(self).view().insert(key, bv).contains_key(kk) by {
                if kk != key {
                    if old(self).view().contains_key(kk) {
                        let j = choose|j: int| 0 <= j < ov.len() && ov[j].0 == kk;
                        assert(ev[j].0 == kk);
                    }
                } else {
                    assert(ev[ov.len() as int].0 == kk);
                }
            }
            assert forall|kk: GlyphKey| #[trigger] self.view().contains_key(kk) implies self.view()[kk] == old(self).view().insert(key, bv)[kk] by {
                let j = choose|j: int| 0 <= j < ev.len() && ev[j].0 == kk;
                if kk == key {
                    assert(j == ov.len());
                } else {
                    let j2 = choose|j: int| 0 <= j < ov.len() && ov[j].0 == kk;
                    assert(ev[j2].0 == kk);
                    assert(j == j2);
                }
            }
            assert(self.view() =~= old(self).view().insert(key, bv));
        }
    }
}

} // verus!
