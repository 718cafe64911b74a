//! The drawing surface of a frame: a `raqote` draw target, seen through its
//! pixels and its stack of clip rectangles.
use raqote::DrawTarget;
use vstd::prelude::*;

verus! {

#[verifier::external_type_specification]
#[verifier::external_body]
#[verifier::reject_recursive_types(Backing)]
pub struct ExDrawTarget<Backing>(DrawTarget<Backing>);

/// A clip rectangle in device pixels: `(min_x, min_y, max_x, max_y)`.
pub type ClipRect = (i32, i32, i32, i32);

/// The ARGB pixels of a draw target, row by row.
pub uninterp spec fn pixels_of(t: DrawTarget) -> Seq<u32>;

/// The clip rectangles pushed on a draw target, the innermost last.
pub uninterp spec fn clips_of(t: DrawTarget) -> Seq<ClipRect>;

/// The width and height of a draw target, in pixels.
pub uninterp spec fn target_size(t: DrawTarget) -> (i32, i32);

/// The transform of a draw target, `(m11, m12, m21, m22, m31, m32)`, each
/// entry the bit pattern of an `f32`.
pub uninterp spec fn transform_of(t: DrawTarget) -> (u32, u32, u32, u32, u32, u32);

/// The identity transform: ones on the diagonal (`0x3f80_0000` is the bit
/// pattern of one), zeros elsewhere.
pub open spec fn identity_transform() -> (u32, u32, u32, u32, u32, u32) {
    (0x3f80_0000, 0, 0, 0x3f80_0000, 0, 0)
}

/// `a * b / 255`, rounded, as `raqote` premultiplies a channel.
pub open spec fn muldiv255(a: u8, b: u8) -> int {
    let t = a * b + 128;
    (t + t / 256) / 256
}

/// The pixel of an unpremultiplied ARGB colour, once premultiplied.
pub open spec fn solid_pixel(a: u8, r: u8, g: u8, b: u8) -> u32 {
    (a * 0x100_0000 + muldiv255(a, r) * 0x1_0000 + muldiv255(a, g) * 0x100 + muldiv255(a, b)) as u32
}

/// Relies on `DrawTarget::new`: a transparent target of `width` by `height`
/// pixels, with no clip and the identity transform.
#[verifier::external_body]
pub(crate) fn new_target(width: i32, height: i32) -> (r: DrawTarget)
    requires
        0 < width,
        0 < height,
        width * height <= i32::MAX,
    ensures
        pixels_of(r) == Seq::new((width * height) as nat, |i: int| 0u32),
        clips_of(r) == Seq::<ClipRect>::empty(),
        target_size(r) == (width, height),
        transform_of(r) == identity_transform(),
{
    DrawTarget::new(width, height)
}

/// Relies on `DrawTarget::clear`: without a clip every pixel becomes the
/// premultiplied colour; size, clips and transform stay.
#[verifier::external_body]
pub(crate) fn clear_target(t: &mut DrawTarget, argb: (u8, u8, u8, u8))
    ensures
        clips_of(*final(t)) == clips_of(*old(t)),
        target_size(*final(t)) == target_size(*old(t)),
        transform_of(*final(t)) == transform_of(*old(t)),
        pixels_of(*final(t)).len() == pixels_of(*old(t)).len(),
        clips_of(*old(t)).len() == 0 ==> pixels_of(*final(t)) == Seq::new(
            pixels_of(*old(t)).len(),
            |i: int| solid_pixel(argb.0, argb.1, argb.2, argb.3),
        ),
{
    t.clear(raqote::SolidSource::from_unpremultiplied_argb(argb.0, argb.1, argb.2, argb.3))
}

/// Relies on `DrawTarget::get_data`: a copy of the pixels.
#[verifier::external_body]
pub(crate) fn target_pixels(t: &DrawTarget) -> (r: Vec<u32>)
    ensures
        r@ == pixels_of(*t),
{
    t.get_data().to_vec()
}

} // verus!
