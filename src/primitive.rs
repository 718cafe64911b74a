//! The primitives that a user interface hands to the renderer.
//!
//! Geometry, colours and text sizes are `f32` values in the interface; here
//! each is held as the `u32` bit pattern of its IEEE 754 encoding, so that
//! it can be compared and used as a key exactly.
use crate::hit_test::Vector;
use std::sync::Arc;
use vstd::prelude::*;

verus! {

/// A rectangle: origin and size, each an `f32` bit pattern.
#[derive(Debug, Clone, Copy, PartialEq, Eq, Structural)]
pub struct Rectangle {
    pub x: u32,
    pub y: u32,
    pub width: u32,
    pub height: u32,
}

/// A straight-alpha RGBA colour, each channel an `f32` bit pattern in `[0, 1]`.
#[derive(Debug, Clone, Copy, PartialEq, Eq, Structural)]
pub struct Color {
    pub r: u32,
    pub g: u32,
    pub b: u32,
    pub a: u32,
}

/// A scroll offset in whole pixels.
#[derive(Debug, Clone, Copy, PartialEq, Eq, Structural)]
pub struct Offset {
    pub x: u32,
    pub y: u32,
}

/// The background of a quad.
#[derive(Debug, Clone, Copy, PartialEq, Eq, Structural)]
pub enum Background {
    Color(Color),
}

/// Horizontal alignment of text within its bounds.
#[derive(Debug, Clone, Copy, PartialEq, Eq, Structural)]
pub enum HorizontalAlignment {
    Left,
    Center,
    Right,
}

/// Vertical alignment of text within its bounds.
#[derive(Debug, Clone, Copy, PartialEq, Eq, Structural)]
pub enum VerticalAlignment {
    Top,
    Center,
    Bottom,
}

/// A font: the built-in fallback, or font-file bytes known by a name.
#[derive(Debug, Clone)]
pub enum TextFont {
    Default,
    External { name: String, bytes: Vec<u8> },
}

/// The identity of a font: no name for the built-in one.
pub open spec fn font_identity(f: TextFont) -> Option<Seq<char>> {
    match f {
        TextFont::Default => None,
        TextFont::External { name, .. } => Some(name@),
    }
}

/// One node of the tree of drawing instructions.
#[derive(Debug)]
pub enum Primitive {
    /// Draws nothing.
    Blank,
    /// Its children, later ones over earlier ones.
    Group { primitives: Vec<Primitive> },
    /// A run of text.
    Text {
        content: String,
        bounds: Rectangle,
        color: Color,
        size: u32,
        font: TextFont,
        horizontal_alignment: HorizontalAlignment,
        vertical_alignment: VerticalAlignment,
    },
    /// A rectangle with rounded corners and a border.
    Quad {
        bounds: Rectangle,
        background: Background,
        border_radius: u32,
        border_width: u32,
        border_color: Color,
    },
    /// An image: not drawn by this renderer.
    Image { bounds: Rectangle },
    /// A vector image: not drawn by this renderer.
    Svg { bounds: Rectangle },
    /// Its content, clipped to `bounds` and moved by the bounds' origin plus
    /// `offset`.
    Clip { bounds: Rectangle, offset: Offset, content: Box<Primitive> },
    /// Its content, moved by `translation`.
    Translate { translation: Vector, content: Box<Primitive> },
    /// A triangle mesh of the given size (`f32` bit patterns): not drawn by
    /// this renderer.
    Mesh2D { width: u32, height: u32 },
    /// A shared sub-tree, drawn as if it stood here.
    Cached { cache: Arc<Primitive> },
}

/// Whether a tree holds nothing but primitives that this renderer does not
/// draw (images, vector images and meshes), in groups nested to any depth.
pub open spec fn stub_only(p: Primitive) -> bool
    decreases p,
{
    match p {
        Primitive::Image { .. } | Primitive::Svg { .. } | Primitive::Mesh2D { .. } => true,
        Primitive::Group { primitives } => all_stub_only(primitives@),
        _ => false,
    }
}

/// Whether each of `ps` holds nothing but primitives this renderer does not
/// draw.
pub open spec fn all_stub_only(ps: Seq<Primitive>) -> bool
    decreases ps,
{
    if ps.len() == 0 {
        true
    } else {
        all_stub_only(ps.drop_last()) && stub_only(ps.last())
    }
}

} // verus!
