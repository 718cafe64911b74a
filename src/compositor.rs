//! The surfaces that receive frames, the size of the next frame of each,
//! and the frames themselves.
use crate::animation::Moment;
use crate::backend::{Backend, Settings};
use crate::clock::now;
use crate::font::decodes_font;
use crate::text::{GlyphBitmapView, GlyphKey, GlyphPos, LayoutKeyView};
use crate::frame::{
    clear_target, clips_of, identity_transform, new_target, pixels_of, solid_pixel, target_pixels, target_size,
    transform_of, ClipRect,
};
use raqote::DrawTarget;
use vstd::prelude::*;

verus! {

/// Refers to one surface, by the order in which surfaces were created.
#[derive(Debug, Clone, Copy, PartialEq, Eq, Structural)]
pub struct SurfaceHandle(pub usize);

/// A surface that was issued, and when.
#[derive(Debug, Clone, Copy)]
struct SurfaceInfo {
    handle: SurfaceHandle,
    created_at: Moment,
}

/// A renderable area; typically one per window.
#[derive(Debug, Clone, Copy, PartialEq, Eq, Structural)]
pub struct Surface {
    pub handle: SurfaceHandle,
}

/// The size of the next frame of a surface, in pixels.
#[derive(Debug, Clone, Copy, PartialEq, Eq, Structural)]
pub struct SwapChain {
    pub surface: SurfaceHandle,
    pub width: u32,
    pub height: u32,
}

/// Why no frame could be had.
#[derive(Debug, Clone, Copy, PartialEq, Eq, Structural)]
pub enum FrameError {
    /// The swap chain has no area.
    Unavailable,
    /// The swap chain has more pixels than a frame can hold.
    TooLarge,
}

/// The frame of `width` by `height` pixels fits a draw target: its sides
/// and its pixel count are within `i32`.
pub open spec fn fits_frame(width: u32, height: u32) -> bool {
    width <= i32::MAX && height <= i32::MAX && width * height <= i32::MAX
}

impl SwapChain {
    /// A fresh, transparent frame of the swap chain's size. It fails when
    /// the size has no area, or is too large for a frame.
    pub fn get_current_frame(&mut self) -> (r: Result<DrawTarget, FrameError>)
        ensures
            *final(self) == *old(self),
            (old(self).width == 0 || old(self).height == 0) ==> r == Err::<DrawTarget, FrameError>(FrameError::Unavailable),
            (old(self).width > 0 && old(self).height > 0 && !fits_frame(old(self).width, old(self).height))
                ==> r == Err::<DrawTarget, FrameError>(FrameError::TooLarge),
            (old(self).width > 0 && old(self).height > 0 && fits_frame(old(self).width, old(self).height)) ==> (r matches Ok(t) && {
                &&& pixels_of(t) == Seq::new((old(self).width * old(self).height) as nat, |i: int| 0u32)
                &&& clips_of(t) == Seq::<ClipRect>::empty()
                &&& target_size(t) == (old(self).width as i32, old(self).height as i32)
                &&& transform_of(t) == identity_transform()
            }),
    {
        if self.width == 0 || self.height == 0 {
            return Err(FrameError::Unavailable);
        }
        if self.width > 0x7fff_ffff || self.height > 0x7fff_ffff {
            return Err(FrameError::TooLarge);
        }
        let w = self.width as u64;
        let h = self.height as u64;
        proof {
            assert(w * h <= 0x7fff_ffff * 0x7fff_ffff) by (nonlinear_arith)
                requires
                    w <= 0x7fff_ffff,
                    h <= 0x7fff_ffff,
            ;
        }
        if w * h > 0x7fff_ffff {
            return Err(FrameError::TooLarge);
        }
        Ok(new_target(self.width as i32, self.height as i32))
    }
}

/// Clears a frame to an unpremultiplied ARGB colour: with no clip pushed,
/// every pixel becomes that colour, premultiplied.
pub fn clear_frame(frame: &mut DrawTarget, argb: (u8, u8, u8, u8))
    ensures
        clips_of(*final(frame)) == clips_of(*old(frame)),
        target_size(*final(frame)) == target_size(*old(frame)),
        transform_of(*final(frame)) == transform_of(*old(frame)),
        clips_of(*old(frame)).len() == 0 ==> pixels_of(*final(frame)) == Seq::new(
            pixels_of(*old(frame)).len(),
            |i: int| solid_pixel(argb.0, argb.1, argb.2, argb.3),
        ),
        pixels_of(*final(frame)).len() == pixels_of(*old(frame)).len(),
{
    clear_target(frame, argb)
}

/// The pixels of a frame, row by row, each `0xAARRGGBB` premultiplied.
pub fn frame_pixels(frame: &DrawTarget) -> (r: Vec<u32>)
    ensures
        r@ == pixels_of(*frame),
{
    target_pixels(frame)
}

/// Owns the surfaces and hands out frames for them.
pub struct Compositor {
    settings: Settings,
    surfaces: Vec<SurfaceInfo>,
}

impl Compositor {
    /// The number of surfaces created so far.
    pub closed spec fn surface_count(self) -> nat {
        self.surfaces@.len()
    }

    /// The settings the compositor was created with.
    pub closed spec fn settings_spec(self) -> Settings {
        self.settings
    }

    pub closed spec fn wf(self) -> bool {
        forall|i: int| 0 <= i < self.surfaces@.len() ==> #[trigger] self.surfaces@[i].handle == SurfaceHandle(i as usize)
    }

    /// A compositor with the given settings and no surfaces.
    pub fn request(settings: Settings) -> (r: Option<Compositor>)
        ensures
            r matches Some(c) && c.wf() && c.surface_count() == 0 && c.settings_spec() == settings,
    {
        Some(Compositor { settings, surfaces: Vec::new() })
    }

    /// A compositor and its renderer; none where the fallback font does not
    /// decode.
    pub fn new(settings: Settings, fallback_font: &[u8]) -> (r: Option<(Compositor, Backend)>)
        ensures
            r is Some == decodes_font(fallback_font@),
            r matches Some((c, b)) ==> {
                &&& c.wf()
                &&& c.surface_count() == 0
                &&& c.settings_spec() == settings
                &&& b.wf()
                &&& b.default_size_spec() == settings.default_text_size
                &&& b.layouts_view() == Map::<LayoutKeyView, Seq<GlyphPos>>::empty()
                &&& b.glyphs_view() == Map::<GlyphKey, GlyphBitmapView>::empty()
                &&& b.fonts_view() == Seq::<Seq<char>>::empty()
                &&& b.warnings_view() == Seq::<(Seq<char>, Seq<char>)>::empty()
            },
    {
        match Compositor::request(settings) {
            Some(c) => match c.create_backend(fallback_font) {
                Some(b) => Some((c, b)),
                None => None,
            },
            None => None,
        }
    }

    /// A renderer for this compositor's settings.
    pub fn create_backend(&self, fallback_font: &[u8]) -> (r: Option<Backend>)
        ensures
            r is Some == decodes_font(fallback_font@),
            r matches Some(b) ==> {
                &&& b.wf()
                &&& b.default_size_spec() == self.settings_spec().default_text_size
                &&& b.layouts_view() == Map::<LayoutKeyView, Seq<GlyphPos>>::empty()
                &&& b.glyphs_view() == Map::<GlyphKey, GlyphBitmapView>::empty()
                &&& b.fonts_view() == Seq::<Seq<char>>::empty()
                &&& b.warnings_view() == Seq::<(Seq<char>, Seq<char>)>::empty()
            },
    {
        Backend::new(&self.settings, fallback_font)
    }

    /// Where frames are written, if anywhere.
    pub fn output(&self) -> (r: &Option<String>)
        ensures
            *r == self.settings_spec().output,
    {
        &self.settings.output
    }

    /// Issues a new surface, with the next handle; handles are never reused.
    pub fn create_surface(&mut self) -> (r: Surface)
        requires
            old(self).wf(),
            old(self).surface_count() < usize::MAX,
        ensures
            final(self).wf(),
            final(self).surface_count() == old(self).surface_count() + 1,
            r.handle == SurfaceHandle(old(self).surface_count() as usize),
            final(self).settings_spec() == old(self).settings_spec(),
    {
        let idx = self.surfaces.len();
        let created_at: Moment = now();
        self.surfaces.push(SurfaceInfo { handle: SurfaceHandle(idx), created_at });
        Surface { handle: SurfaceHandle(idx) }
    }

    /// The swap chain of a surface at the given size; it replaces any made
    /// before for that surface.
    pub fn create_swap_chain(&mut self, surface: &Surface, width: u32, height: u32) -> (r: SwapChain)
        ensures
            r == (SwapChain { surface: surface.handle, width, height }),
            *final(self) == *old(self),
    {
        SwapChain { surface: surface.handle, width, height }
    }
}

} // verus!
