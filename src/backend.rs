//! The renderer: it walks a primitive tree and yields the drawing commands
//! for it, resolving fonts and reusing the glyph positions of measured text.
use crate::command::{
    lemma_run_push, lemma_views_push, run, step, views, CommandView, DrawCommand, SurfaceModel, TextRun,
};
use crate::font::{
    decodes_font, font_decode_error, resolved_in, warning_views, FontRef, FontRegistry, FontWarning,
};
use crate::primitive::{
    all_stub_only, font_identity, stub_only, Color, HorizontalAlignment, Primitive, Rectangle, TextFont,
    VerticalAlignment,
};
use crate::text::{
    GlyphBitmap, GlyphBitmapView, GlyphCache, GlyphKey, GlyphPos, LayoutCache, LayoutKey,
    LayoutKeyView,
};
use vstd::prelude::*;

verus! {

/// The bit pattern of `1.0f32`.
pub const ONE_BITS: u32 = 0x3f80_0000;

/// The text size of overlay text, `14.0f32`, as a bit pattern.
pub const OVERLAY_SIZE_BITS: u32 = 0x4160_0000;

/// The options the renderer is created with.
#[derive(Debug, Clone)]
pub struct Settings {
    /// The text size used where a widget sets none.
    pub default_text_size: u16,
    /// Where each committed frame is written as an image, if anywhere.
    pub output: Option<String>,
}

/// The size of the viewport in physical pixels, as `f32` bit patterns.
#[derive(Debug, Clone, Copy, PartialEq, Eq, Structural)]
pub struct Viewport {
    pub width: u32,
    pub height: u32,
}

/// The layout key of a text run.
pub open spec fn layout_key_of(content: Seq<char>, size: u32, font: TextFont) -> LayoutKeyView {
    (content, size, font_identity(font))
}

/// Whether `c` draws the text primitive `p`, in the font it resolves to
/// once `names` are loaded, with the glyph positions that `layouts` holds
/// for it where it holds any.
pub open spec fn draws_text_from(
    c: DrawCommand,
    p: Primitive,
    layouts: Map<LayoutKeyView, Seq<GlyphPos>>,
    names: Seq<Seq<char>>,
) -> bool {
    match (c, p) {
        (
            DrawCommand::Text(t),
            Primitive::Text { content, bounds, color, size, font, horizontal_alignment, vertical_alignment },
        ) => {
            let k = layout_key_of(content@, size, font);
            &&& t.content@ == content@
            &&& t.bounds == bounds
            &&& t.color == color
            &&& t.size == size
            &&& t.horizontal_alignment == horizontal_alignment
            &&& t.vertical_alignment == vertical_alignment
            &&& resolved_in(t.font, font, names)
            &&& if layouts.contains_key(k) {
                t.glyphs matches Some(g) && g@ == layouts[k]
            } else {
                t.glyphs is None
            }
        },
        _ => false,
    }
}

/// Once the measurement of a text run is stored, a command that draws that
/// run from the cache carries the stored glyph positions: the run is not
/// shaped again. Drawing leaves the cache as it is, so this holds for every
/// draw that follows one measurement.
pub proof fn lemma_measured_text_is_reused(
    layouts: Map<LayoutKeyView, Seq<GlyphPos>>,
    p: Primitive,
    glyphs: Seq<GlyphPos>,
    c: DrawCommand,
    names: Seq<Seq<char>>,
)
    requires
        match p {
            Primitive::Text { content, size, font, .. } => draws_text_from(
                c,
                p,
                layouts.insert(layout_key_of(content@, size, font), glyphs),
                names,
            ),
            _ => false,
        },
    ensures
        c matches DrawCommand::Text(t) && (t.glyphs matches Some(g) && g@ == glyphs),
{
}

/// Caches that no step changes stay as they started.
proof fn lemma_unchanged_caches(layouts: Seq<Map<LayoutKeyView, Seq<GlyphPos>>>, i: int)
    requires
        0 <= i < layouts.len(),
        forall|j: int| 0 <= j < layouts.len() - 1 ==> #[trigger] layouts[j + 1] == layouts[j],
    ensures
        layouts[i] == layouts[0],
    decreases i,
{
    if i > 0 {
        lemma_unchanged_caches(layouts, i - 1);
        assert(layouts[(i - 1) + 1] == layouts[i - 1]);
    }
}

/// However many draws of a text run follow its measurement, each carries
/// the measured glyph positions, so none shapes the run again: `layouts[i]`
/// is the layout cache when draw `i` starts, `layouts[0]` holds the
/// measurement, and drawing leaves the cache as it is.
pub proof fn lemma_every_later_draw_reuses_measurement(
    p: Primitive,
    glyphs: Seq<GlyphPos>,
    layouts: Seq<Map<LayoutKeyView, Seq<GlyphPos>>>,
    names: Seq<Seq<Seq<char>>>,
    cmds: Seq<DrawCommand>,
)
    requires
        layouts.len() == cmds.len() + 1,
        names.len() == cmds.len(),
        match p {
            Primitive::Text { content, size, font, .. } => layouts[0].contains_key(layout_key_of(content@, size, font))
                && layouts[0][layout_key_of(content@, size, font)] == glyphs,
            _ => false,
        },
        forall|j: int| 0 <= j < layouts.len() - 1 ==> #[trigger] layouts[j + 1] == layouts[j],
        forall|i: int| 0 <= i < cmds.len() ==> draws_text_from(#[trigger] cmds[i], p, layouts[i], names[i]),
    ensures
        forall|i: int|
            0 <= i < cmds.len() ==> (#[trigger] cmds[i] matches DrawCommand::Text(t) && (t.glyphs matches Some(g)
                && g@ == glyphs)),
{
    assert forall|i: int| 0 <= i < cmds.len() implies (#[trigger] cmds[i] matches DrawCommand::Text(t) && (
    t.glyphs matches Some(g) && g@ == glyphs)) by {
        lemma_unchanged_caches(layouts, i);
        assert(draws_text_from(cmds[i], p, layouts[i], names[i]));
    }
}

/// Whether `c` draws the overlay text `content`: white, at size 14, in the
/// built-in font, from the top left corner of the viewport, with the glyph
/// positions that `layouts` holds for it where it holds any.
pub open spec fn draws_overlay(
    c: DrawCommand,
    content: Seq<char>,
    viewport: Viewport,
    layouts: Map<LayoutKeyView, Seq<GlyphPos>>,
) -> bool {
    match c {
        DrawCommand::Text(t) => {
            let k: LayoutKeyView = (content, OVERLAY_SIZE_BITS, None);
            &&& t.content@ == content
            &&& t.bounds == (Rectangle { x: 0, y: 0, width: viewport.width, height: viewport.height })
            &&& t.color == (Color { r: ONE_BITS, g: ONE_BITS, b: ONE_BITS, a: ONE_BITS })
            &&& t.size == OVERLAY_SIZE_BITS
            &&& t.font == FontRef::Fallback
            &&& t.horizontal_alignment == HorizontalAlignment::Left
            &&& t.vertical_alignment == VerticalAlignment::Top
            &&& if layouts.contains_key(k) {
                t.glyphs matches Some(g) && g@ == layouts[k]
            } else {
                t.glyphs is None
            }
        },
        _ => false,
    }
}

/// The commands, by value, that draw `p` with the measured glyph positions
/// `layouts`: a group's children in order, a clip or translation as a scope
/// around its content, a shared sub-tree as if it stood here, one command
/// for a quad or a text run, and none for what is not drawn.
pub open spec fn commands_for(p: Primitive, layouts: Map<LayoutKeyView, Seq<GlyphPos>>) -> Seq<CommandView>
    decreases p,
{
    match p {
        Primitive::Group { primitives } => commands_for_all(primitives@, layouts),
        Primitive::Text { content, bounds, color, size, font, horizontal_alignment, vertical_alignment } => {
            let k = layout_key_of(content@, size, font);
            seq![
                CommandView::Text {
                    content: content@,
                    bounds,
                    color,
                    size,
                    horizontal_alignment,
                    vertical_alignment,
                    glyphs: if layouts.contains_key(k) { Some(layouts[k]) } else { None },
                },
            ]
        },
        Primitive::Quad { bounds, background, border_radius, border_width, border_color } => seq![
            CommandView::Quad { bounds, background, border_radius, border_width, border_color },
        ],
        Primitive::Clip { bounds, offset, content } => seq![CommandView::PushClip { bounds, offset }]
            + commands_for(*content, layouts) + seq![CommandView::PopClip],
        Primitive::Translate { translation, content } => seq![CommandView::PushTranslate { translation }]
            + commands_for(*content, layouts) + seq![CommandView::PopTranslate],
        Primitive::Cached { cache } => commands_for(*cache, layouts),
        _ => Seq::empty(),
    }
}

/// The commands, by value, that draw each of `ps` in order.
pub open spec fn commands_for_all(ps: Seq<Primitive>, layouts: Map<LayoutKeyView, Seq<GlyphPos>>) -> Seq<CommandView>
    decreases ps,
{
    if ps.len() == 0 {
        Seq::empty()
    } else {
        commands_for_all(ps.drop_last(), layouts) + commands_for(ps.last(), layouts)
    }
}

/// A tree of primitives that are not drawn yields no commands.
pub proof fn lemma_stub_tree_draws_nothing(p: Primitive, layouts: Map<LayoutKeyView, Seq<GlyphPos>>)
    requires
        stub_only(p),
    ensures
        commands_for(p, layouts) == Seq::<CommandView>::empty(),
    decreases p,
{
    match p {
        Primitive::Group { primitives } => lemma_stub_trees_draw_nothing(primitives@, layouts),
        _ => {},
    }
}

/// Trees of primitives that are not drawn yield no commands.
pub proof fn lemma_stub_trees_draw_nothing(ps: Seq<Primitive>, layouts: Map<LayoutKeyView, Seq<GlyphPos>>)
    requires
        all_stub_only(ps),
    ensures
        commands_for_all(ps, layouts) == Seq::<CommandView>::empty(),
    decreases ps,
{
    if ps.len() > 0 {
        lemma_stub_trees_draw_nothing(ps.drop_last(), layouts);
        lemma_stub_tree_draws_nothing(ps.last(), layouts);
        assert(commands_for_all(ps, layouts) =~= Seq::<CommandView>::empty());
    }
}

/// A software renderer of primitive trees.
pub struct Backend {
    fonts: FontRegistry,
    layouts: LayoutCache,
    glyphs: GlyphCache,
    default_text_size: u16,
    warnings: Vec<FontWarning>,
}

impl Backend {
    /// The glyph positions of each measured text run, by layout key.
    pub closed spec fn layouts_view(self) -> Map<LayoutKeyView, Seq<GlyphPos>> {
        self.layouts.view()
    }

    /// The bitmap of each rasterized glyph.
    pub closed spec fn glyphs_view(self) -> Map<GlyphKey, GlyphBitmapView> {
        self.glyphs.view()
    }

    /// The fonts loaded so far, by name.
    pub closed spec fn fonts_view(self) -> Seq<Seq<char>> {
        self.fonts.names_view()
    }

    /// The name and message of each warning not yet taken, in order.
    pub closed spec fn warnings_view(self) -> Seq<(Seq<char>, Seq<char>)> {
        warning_views(self.warnings@)
    }

    /// The font that `r` refers to.
    pub closed spec fn face_of(self, r: FontRef) -> fontdue::Font {
        self.fonts.face_of(r)
    }

    /// Whether `r` refers to a font of this renderer.
    pub closed spec fn holds_font(self, r: FontRef) -> bool {
        self.fonts.holds(r)
    }

    pub closed spec fn wf(self) -> bool {
        self.fonts.wf() && self.layouts.wf() && self.glyphs.wf()
    }

    pub closed spec fn default_size_spec(self) -> u16 {
        self.default_text_size
    }

    /// A renderer with empty caches, whose fallback font is decoded from
    /// `fallback_font`; none where those bytes are no font.
    pub fn new(settings: &Settings, fallback_font: &[u8]) -> (r: Option<Backend>)
        ensures
            r is Some == decodes_font(fallback_font@),
            r matches Some(b) ==> {
                &&& b.wf()
                &&& b.layouts_view() == Map::<LayoutKeyView, Seq<GlyphPos>>::empty()
                &&& b.glyphs_view() == Map::<GlyphKey, GlyphBitmapView>::empty()
                &&& b.fonts_view() == Seq::<Seq<char>>::empty()
                &&& b.default_size_spec() == settings.default_text_size
                &&& b.warnings_view() == Seq::<(Seq<char>, Seq<char>)>::empty()
            },
    {
        match FontRegistry::new(fallback_font) {
            Some(fonts) => Some(
                Backend {
                    fonts,
                    layouts: LayoutCache::new(),
                    glyphs: GlyphCache::new(),
                    default_text_size: settings.default_text_size,
                    warnings: Vec::new(),
                },
            ),
            None => None,
        }
    }

    /// The text size used where a widget sets none.
    pub fn default_size(&self) -> (r: u16)
        ensures
            r == self.default_size_spec(),
    {
        self.default_text_size
    }

    /// Resolves a font, loading it on first use; a font that does not load
    /// is replaced by the fallback, and a warning is kept.
    pub fn resolve_font(&mut self, font: &TextFont) -> (r: FontRef)
        requires
            old(self).wf(),
        ensures
            final(self).wf(),
            final(self).layouts_view() == old(self).layouts_view(),
            final(self).glyphs_view() == old(self).glyphs_view(),
            old(self).fonts_view().is_prefix_of(final(self).fonts_view()),
            final(self).holds_font(r),
            resolved_in(r, *font, final(self).fonts_view()),
            final(self).default_size_spec() == old(self).default_size_spec(),
            match font {
                TextFont::External { name, bytes } => if !old(self).fonts_view().contains(name@) && !decodes_font(bytes@) {
                    final(self).warnings_view() == old(self).warnings_view().push(
                        (name@, font_decode_error(bytes@)->Some_0),
                    )
                } else {
                    final(self).warnings_view() == old(self).warnings_view()
                },
                _ => final(self).warnings_view() == old(self).warnings_view(),
            },
            match font {
                TextFont::Default => r == FontRef::Fallback && final(self).fonts_view() == old(self).fonts_view(),
                TextFont::External { name, bytes } => if old(self).fonts_view().contains(name@) {
                    final(self).fonts_view() == old(self).fonts_view()
                        && (r matches FontRef::Loaded(i) && old(self).fonts_view()[i as int] == name@)
                } else if decodes_font(bytes@) {
                    r == FontRef::Loaded(old(self).fonts_view().len() as usize)
                        && final(self).fonts_view() == old(self).fonts_view().push(name@)
                } else {
                    r == FontRef::Fallback && final(self).fonts_view() == old(self).fonts_view()
                },
            },
    {
        let (r, warning) = self.fonts.resolve(font);
        match warning {
            Some(w) => {
                self.warnings.push(w);
                proof {
                    assert(warning_views(self.warnings@) =~= warning_views(old(self).warnings@).push((w.name@, w.error@)));
                }
            },
            None => {},
        }
        r
    }

    /// The font that `r` refers to, if it is one of this renderer's.
    pub fn face(&self, r: FontRef) -> (f: Option<&fontdue::Font>)
        requires
            self.wf(),
        ensures
            f is Some <==> self.holds_font(r),
            f matches Some(face) ==> *face == self.face_of(r),
    {
        match r {
            FontRef::Fallback => Some(self.fonts.face(r)),
            FontRef::Loaded(i) => {
                if self.fonts.has_loaded(i) {
                    Some(self.fonts.face(r))
                } else {
                    None
                }
            },
        }
    }

    /// The warnings of fonts that did not load, taken out.
    pub fn take_warnings(&mut self) -> (r: Vec<FontWarning>)
        ensures
            warning_views(r@) == old(self).warnings_view(),
            final(self).warnings_view() == Seq::<(Seq<char>, Seq<char>)>::empty(),
            final(self).wf() == old(self).wf(),
            final(self).layouts_view() == old(self).layouts_view(),
            final(self).glyphs_view() == old(self).glyphs_view(),
            final(self).fonts_view() == old(self).fonts_view(),
            final(self).default_size_spec() == old(self).default_size_spec(),
            forall|i: FontRef| #[trigger] final(self).face_of(i) == old(self).face_of(i),
    {
        let mut taken = Vec::new();
        std::mem::swap(&mut taken, &mut self.warnings);
        proof {
            assert(warning_views(self.warnings@) =~= Seq::<(Seq<char>, Seq<char>)>::empty());
        }
        taken
    }

    /// Stores what measuring a text run found: its glyph positions replace
    /// any stored under the same content, size and font.
    pub fn store_layout(&mut self, content: &String, size: u32, font: &TextFont, glyphs: Vec<GlyphPos>)
        requires
            old(self).wf(),
        ensures
            final(self).wf(),
            final(self).layouts_view() == old(self).layouts_view().insert(layout_key_of(content@, size, *font), glyphs@),
            final(self).glyphs_view() == old(self).glyphs_view(),
            final(self).fonts_view() == old(self).fonts_view(),
            final(self).default_size_spec() == old(self).default_size_spec(),
            final(self).warnings_view() == old(self).warnings_view(),
    {
        let key = LayoutKey { content: content.clone(), size, font: font_name(font) };
        self.layouts.insert(key, glyphs);
    }

    /// The bitmap of a rasterized glyph, if it is cached.
    pub fn glyph(&self, key: GlyphKey) -> (r: Option<&GlyphBitmap>)
        requires
            self.wf(),
        ensures
            match r {
                Some(b) => self.glyphs_view().contains_key(key) && b.view() == self.glyphs_view()[key],
                None => !self.glyphs_view().contains_key(key),
            },
    {
        self.glyphs.get(key)
    }

    /// The bitmap of a glyph: the cached one, or else the one `rasterize`
    /// makes from the glyph's font, which is cached from then on.
    pub fn cached_glyph<F: FnOnce(&fontdue::Font) -> GlyphBitmap>(&mut self, key: GlyphKey, rasterize: F) -> (r: GlyphBitmap)
        requires
            old(self).wf(),
            old(self).holds_font(key.font),
            forall|f: &fontdue::Font| call_requires(rasterize, (f,)),
        ensures
            final(self).wf(),
            final(self).glyphs_view().contains_key(key),
            r.view() == final(self).glyphs_view()[key],
            old(self).glyphs_view().contains_key(key) ==> final(self).glyphs_view() == old(self).glyphs_view(),
            !old(self).glyphs_view().contains_key(key) ==> {
                &&& final(self).glyphs_view() == old(self).glyphs_view().insert(key, r.view())
                &&& call_ensures(rasterize, (&old(self).face_of(key.font),), r)
            },
            final(self).layouts_view() == old(self).layouts_view(),
            final(self).fonts_view() == old(self).fonts_view(),
            final(self).default_size_spec() == old(self).default_size_spec(),
            final(self).warnings_view() == old(self).warnings_view(),
    {
        let cached: Option<GlyphBitmap> = match self.glyphs.get(key) {
            Some(b) => Some(copy_bitmap(b)),
            None => None,
        };
        proof {
            assert(cached is Some <==> self.glyphs.view().contains_key(key));
        }
        match cached {
            Some(b) => {
                proof {
                    assert(self.glyphs_view().contains_key(key));
                }
                b
            },
            None => {
                let face = self.fonts.face(key.font);
                let b = rasterize(face);
                self.glyphs.insert(key, copy_bitmap(&b));
                b
            },
        }
    }

    /// Caches the bitmap of a glyph; a bitmap cached before under the same
    /// key stays.
    pub fn store_glyph(&mut self, key: GlyphKey, bitmap: GlyphBitmap)
        requires
            old(self).wf(),
        ensures
            final(self).wf(),
            final(self).glyphs_view() == if old(self).glyphs_view().contains_key(key) {
                old(self).glyphs_view()
            } else {
                old(self).glyphs_view().insert(key, bitmap.view())
            },
            final(self).layouts_view() == old(self).layouts_view(),
            final(self).fonts_view() == old(self).fonts_view(),
            final(self).default_size_spec() == old(self).default_size_spec(),
            final(self).warnings_view() == old(self).warnings_view(),
    {
        match self.glyphs.get(key) {
            Some(_) => {},
            None => self.glyphs.insert(key, bitmap),
        }
    }

    /// Appends to `out` the commands that draw `primitive`: children in
    /// order, clips and translations as a scope around their content, text
    /// with the glyph positions measured for it, and nothing for images,
    /// vector images and meshes. Every scope opened is closed again, so the
    /// commands leave the clip stack and transform as they found them.
    pub fn draw_primitive(&mut self, out: &mut Vec<DrawCommand>, primitive: &Primitive)
        requires
            old(self).wf(),
        ensures
            final(self).wf(),
            final(self).layouts_view() == old(self).layouts_view(),
            final(self).glyphs_view() == old(self).glyphs_view(),
            old(self).fonts_view().is_prefix_of(final(self).fonts_view()),
            old(out)@.is_prefix_of(final(out)@),
            forall|s: SurfaceModel| #[trigger] run(final(out)@, s) == run(old(out)@, s),
            primitive is Text ==> final(out)@.len() == old(out)@.len() + 1 && draws_text_from(
                final(out)@.last(),
                *primitive,
                old(self).layouts_view(),
                final(self).fonts_view(),
            ),
            primitive is Blank ==> final(out)@ == old(out)@,
            views(final(out)@) == views(old(out)@) + commands_for(*primitive, old(self).layouts_view()),
        decreases primitive,
    {
        let ghost layouts = self.layouts_view();
        match primitive {
            Primitive::Blank => {
                assert(views(out@) + commands_for(*primitive, layouts) =~= views(out@));
            },
            Primitive::Group { primitives } => {
                proof {
                    assert(primitives@.subrange(0, 0) =~= Seq::<Primitive>::empty());
                    assert(views(out@) + commands_for_all(primitives@.subrange(0, 0), layouts) =~= views(out@));
                }
                let mut i: usize = 0;
                while i < primitives.len()
                    invariant
                        i <= primitives@.len(),
                        *primitive == (Primitive::Group { primitives: *primitives }),
                        self.wf(),
                        self.layouts_view() == old(self).layouts_view(),
                        self.glyphs_view() == old(self).glyphs_view(),
                        old(self).fonts_view().is_prefix_of(self.fonts_view()),
                        old(out)@.is_prefix_of(out@),
                        forall|s: SurfaceModel| #[trigger] run(out@, s) == run(old(out)@, s),
                        layouts == old(self).layouts_view(),
                        views(out@) == views(old(out)@) + commands_for_all(primitives@.subrange(0, i as int), layouts),
                    decreases primitives@.len() - i,
                {
                    proof {
                        assert((*primitive)->primitives == *primitives);
                        assert(decreases_to!(*primitive => (*primitive)->primitives));
                        assert(decreases_to!(*primitives => primitives@));
                        assert(decreases_to!(primitives@ => primitives@[i as int]));
                        assert(decreases_to!(*primitive => primitives@[i as int]));
                    }
                    let ghost before = out@;
                    self.draw_primitive(out, &primitives[i]);
                    proof {
                        lemma_prefix_trans(old(out)@, before, out@);
                        let ps = primitives@;
                        assert(ps.subrange(0, i + 1).drop_last() =~= ps.subrange(0, i as int));
                        assert(ps.subrange(0, i + 1).last() == ps[i as int]);
                        assert(views(out@) =~= views(old(out)@) + commands_for_all(ps.subrange(0, i + 1), layouts));
                    }
                    i = i + 1;
                }
                proof {
                    assert(primitives@.subrange(0, primitives@.len() as int) =~= primitives@);
                }
            },
            Primitive::Text {
                content,
                bounds,
                color,
                size,
                font,
                horizontal_alignment,
                vertical_alignment,
            } => {
                let fref = self.resolve_font(font);
                let key = LayoutKey { content: content.clone(), size: *size, font: font_name(font) };
                let glyphs = self.layouts.get(&key);
                let c = DrawCommand::Text(
                    TextRun {
                        content: content.clone(),
                        bounds: *bounds,
                        color: *color,
                        size: *size,
                        font: fref,
                        horizontal_alignment: *horizontal_alignment,
                        vertical_alignment: *vertical_alignment,
                        glyphs,
                    },
                );
                let ghost before = out@;
                out.push(c);
                proof {
                    assert forall|s: SurfaceModel| #[trigger] run(out@, s) == run(old(out)@, s) by {
                        lemma_run_push(before, c, s);
                    }
                    lemma_prefix_push(before, c);
                    lemma_views_push(before, c);
                    assert(views(out@) =~= views(before) + commands_for(*primitive, layouts));
                }
            },
            Primitive::Quad { bounds, background, border_radius, border_width, border_color } => {
                let c = DrawCommand::Quad {
                    bounds: *bounds,
                    background: *background,
                    border_radius: *border_radius,
                    border_width: *border_width,
                    border_color: *border_color,
                };
                let ghost before = out@;
                out.push(c);
                proof {
                    assert forall|s: SurfaceModel| #[trigger] run(out@, s) == run(old(out)@, s) by {
                        lemma_run_push(before, c, s);
                    }
                    lemma_prefix_push(before, c);
                    lemma_views_push(before, c);
                    assert(views(out@) =~= views(before) + commands_for(*primitive, layouts));
                }
            },
            Primitive::Image { .. } | Primitive::Svg { .. } | Primitive::Mesh2D { .. } => {
                assert(views(out@) + commands_for(*primitive, layouts) =~= views(out@));
            },
            Primitive::Clip { bounds, offset, content } => {
                let open = DrawCommand::PushClip { bounds: *bounds, offset: *offset };
                let ghost before = out@;
                out.push(open);
                let ghost opened = out@;
                self.draw_primitive(out, content);
                let ghost drawn = out@;
                out.push(DrawCommand::PopClip);
                proof {
                    assert forall|s: SurfaceModel| #[trigger] run(out@, s) == run(old(out)@, s) by {
                        lemma_run_push(before, open, s);
                        lemma_run_push(drawn, DrawCommand::PopClip, s);
                        assert(run(drawn, s) == run(opened, s));
                        match run(before, s) {
                            Some(t) => {
                                let u = step(open, t).unwrap();
                                assert(u.saved.drop_last() =~= t.saved);
                            },
                            None => {},
                        }
                    }
                    lemma_prefix_push(before, open);
                    lemma_prefix_trans(before, opened, drawn);
                    lemma_prefix_push(drawn, out@.last());
                    assert(drawn.push(out@.last()) == out@);
                    lemma_prefix_trans(before, drawn, out@);
                    lemma_views_push(before, open);
                    lemma_views_push(drawn, DrawCommand::PopClip);
                    assert(views(out@) =~= views(before) + commands_for(*primitive, layouts));
                }
            },
            Primitive::Translate { translation, content } => {
                let open = DrawCommand::PushTranslate { translation: *translation };
                let ghost before = out@;
                out.push(open);
                let ghost opened = out@;
                self.draw_primitive(out, content);
                let ghost drawn = out@;
                out.push(DrawCommand::PopTranslate);
                proof {
                    assert forall|s: SurfaceModel| #[trigger] run(out@, s) == run(old(out)@, s) by {
                        lemma_run_push(before, open, s);
                        lemma_run_push(drawn, DrawCommand::PopTranslate, s);
                        assert(run(drawn, s) == run(opened, s));
                        match run(before, s) {
                            Some(t) => {
                                let u = step(open, t).unwrap();
                                assert(u.saved.drop_last() =~= t.saved);
                            },
                            None => {},
                        }
                    }
                    lemma_prefix_push(before, open);
                    lemma_prefix_trans(before, opened, drawn);
                    lemma_prefix_push(drawn, out@.last());
                    assert(drawn.push(out@.last()) == out@);
                    lemma_prefix_trans(before, drawn, out@);
                    lemma_views_push(before, open);
                    lemma_views_push(drawn, DrawCommand::PopTranslate);
                    assert(views(out@) =~= views(before) + commands_for(*primitive, layouts));
                }
            },
            Primitive::Cached { cache } => {
                self.draw_primitive(out, &**cache);
            },
        }
    }

    /// The commands that draw `primitive`, then each overlay text on top,
    /// in white at size 14, from the top left corner of the viewport. They
    /// leave the clip stack and transform as they found them.
    pub fn draw(&mut self, primitive: &Primitive, overlay: &Vec<String>, viewport: Viewport) -> (r: Vec<DrawCommand>)
        requires
            old(self).wf(),
        ensures
            final(self).wf(),
            final(self).layouts_view() == old(self).layouts_view(),
            final(self).glyphs_view() == old(self).glyphs_view(),
            old(self).fonts_view().is_prefix_of(final(self).fonts_view()),
            forall|s: SurfaceModel| #[trigger] run(r@, s) == Some(s),
            stub_only(*primitive) ==> r@.len() == overlay@.len(),
            r@.len() >= overlay@.len(),
            forall|i: int|
                0 <= i < overlay@.len() ==> draws_overlay(
                    #[trigger] r@[r@.len() - overlay@.len() + i],
                    overlay@[i]@,
                    viewport,
                    old(self).layouts_view(),
                ),
            views(r@).subrange(0, r@.len() - overlay@.len()) == commands_for(*primitive, old(self).layouts_view()),
    {
        let mut out: Vec<DrawCommand> = Vec::new();
        self.draw_primitive(&mut out, primitive);
        let ghost base = out@.len();
        proof {
            assert(views(Seq::<DrawCommand>::empty()) =~= Seq::<CommandView>::empty());
            assert(views(out@).subrange(0, base as int) =~= views(out@));
        }
        proof {
            if stub_only(*primitive) {
                lemma_stub_tree_draws_nothing(*primitive, old(self).layouts_view());
                assert(views(out@).len() == 0);
            }
        }
        let mut i: usize = 0;
        while i < overlay.len()
            invariant
                i <= overlay@.len(),
                self.wf(),
                self.layouts_view() == old(self).layouts_view(),
                self.glyphs_view() == old(self).glyphs_view(),
                old(self).fonts_view().is_prefix_of(self.fonts_view()),
                forall|s: SurfaceModel| #[trigger] run(out@, s) == Some(s),
                out@.len() == base + i,
                stub_only(*primitive) ==> base == 0,
                forall|j: int|
                    0 <= j < i ==> draws_overlay(#[trigger] out@[base + j], overlay@[j]@, viewport, old(self).layouts_view()),
                views(out@).subrange(0, base as int) == commands_for(*primitive, old(self).layouts_view()),
            decreases overlay@.len() - i,
        {
            let ghost prev = out@;
            let text = Primitive::Text {
                content: overlay[i].clone(),
                bounds: Rectangle { x: 0, y: 0, width: viewport.width, height: viewport.height },
                color: Color { r: ONE_BITS, g: ONE_BITS, b: ONE_BITS, a: ONE_BITS },
                size: OVERLAY_SIZE_BITS,
                font: TextFont::Default,
                horizontal_alignment: HorizontalAlignment::Left,
                vertical_alignment: VerticalAlignment::Top,
            };
            self.draw_primitive(&mut out, &text);
            proof {
                assert forall|j: int| 0 <= j < i + 1 implies draws_overlay(
                    #[trigger] out@[base + j],
                    overlay@[j]@,
                    viewport,
                    old(self).layouts_view(),
                ) by {
                    if j < i {
                        assert(out@[base + j] == prev[base + j]);
                    }
                }
                assert(views(out@).subrange(0, base as int) =~= views(prev).subrange(0, base as int));
            }
            i = i + 1;
        }
        out
    }
}

/// A prefix of a prefix is a prefix.
proof fn lemma_prefix_trans(a: Seq<DrawCommand>, b: Seq<DrawCommand>, c: Seq<DrawCommand>)
    requires
        a.is_prefix_of(b),
        b.is_prefix_of(c),
    ensures
        a.is_prefix_of(c),
{
    assert forall|i: int| 0 <= i < a.len() implies a[i] == c.subrange(0, a.len() as int)[i] by {
        assert(a[i] == b.subrange(0, a.len() as int)[i]);
        assert(b[i] == c.subrange(0, b.len() as int)[i]);
    }
    assert(a =~= c.subrange(0, a.len() as int));
}

/// A sequence is a prefix of itself with one more command.
proof fn lemma_prefix_push(a: Seq<DrawCommand>, x: DrawCommand)
    ensures
        a.is_prefix_of(a.push(x)),
{
    assert(a =~= a.push(x).subrange(0, a.len() as int));
}

/// A copy of a bitmap.
fn copy_bitmap(b: &GlyphBitmap) -> (r: GlyphBitmap)
    ensures
        r.view() == b.view(),
{
    GlyphBitmap { width: b.width, height: b.height, coverage: b.coverage.clone() }
}

/// The name of a font, none for the built-in one.
fn font_name(font: &TextFont) -> (r: Option<String>)
    ensures
        match r {
            Some(n) => font_identity(*font) == Some(n@),
            None => font_identity(*font) is None,
        },
{
    match font {
        TextFont::Default => None,
        TextFont::External { name, .. } => Some(name.clone()),
    }
}

} // verus!
