//! The drawing commands that rendering a primitive tree yields, in order,
//! and the model of what they do to a surface's clip stack and transform.
use crate::font::FontRef;
use crate::hit_test::Vector;
use crate::primitive::{Background, Color, HorizontalAlignment, Offset, Rectangle, VerticalAlignment};
use crate::text::GlyphPos;
use vstd::prelude::*;

verus! {

/// A run of text to draw, with its font resolved and, when it was measured
/// before, the glyph positions of that measurement.
#[derive(Debug)]
pub struct TextRun {
    pub content: String,
    pub bounds: Rectangle,
    pub color: Color,
    pub size: u32,
    pub font: FontRef,
    pub horizontal_alignment: HorizontalAlignment,
    pub vertical_alignment: VerticalAlignment,
    /// The cached glyph positions; none where the text must be shaped in
    /// place.
    pub glyphs: Option<Vec<GlyphPos>>,
}

/// One drawing command.
#[derive(Debug)]
pub enum DrawCommand {
    /// Fill the rounded rectangle of `bounds` with `border_color`, then the
    /// same shape inset by `border_width` with the background.
    Quad {
        bounds: Rectangle,
        background: Background,
        border_radius: u32,
        border_width: u32,
        border_color: Color,
    },
    /// Draw a run of text.
    Text(TextRun),
    /// Push the clip rectangle `bounds`, save the transform, and translate
    /// by the origin of `bounds` plus `offset`.
    PushClip { bounds: Rectangle, offset: Offset },
    /// Restore the transform saved by the matching `PushClip`, and pop its
    /// clip rectangle.
    PopClip,
    /// Save the transform and translate by `translation`.
    PushTranslate { translation: Vector },
    /// Restore the transform saved by the matching `PushTranslate`.
    PopTranslate,
}

/// A drawing command by value, without the font that a text run resolved
/// to.
pub enum CommandView {
    Quad {
        bounds: Rectangle,
        background: Background,
        border_radius: u32,
        border_width: u32,
        border_color: Color,
    },
    Text {
        content: Seq<char>,
        bounds: Rectangle,
        color: Color,
        size: u32,
        horizontal_alignment: HorizontalAlignment,
        vertical_alignment: VerticalAlignment,
        glyphs: Option<Seq<GlyphPos>>,
    },
    PushClip { bounds: Rectangle, offset: Offset },
    PopClip,
    PushTranslate { translation: Vector },
    PopTranslate,
}

impl DrawCommand {
    pub open spec fn view(&self) -> CommandView {
        match *self {
            DrawCommand::Quad { bounds, background, border_radius, border_width, border_color } => CommandView::Quad {
                bounds,
                background,
                border_radius,
                border_width,
                border_color,
            },
            DrawCommand::Text(t) => CommandView::Text {
                content: t.content@,
                bounds: t.bounds,
                color: t.color,
                size: t.size,
                horizontal_alignment: t.horizontal_alignment,
                vertical_alignment: t.vertical_alignment,
                glyphs: match t.glyphs {
                    Some(g) => Some(g@),
                    None => None,
                },
            },
            DrawCommand::PushClip { bounds, offset } => CommandView::PushClip { bounds, offset },
            DrawCommand::PopClip => CommandView::PopClip,
            DrawCommand::PushTranslate { translation } => CommandView::PushTranslate { translation },
            DrawCommand::PopTranslate => CommandView::PopTranslate,
        }
    }
}

/// The values of a sequence of commands.
pub open spec fn views(cmds: Seq<DrawCommand>) -> Seq<CommandView> {
    cmds.map_values(|c: DrawCommand| c.view())
}

/// The values of commands with one more are those values with its value.
pub proof fn lemma_views_push(cmds: Seq<DrawCommand>, c: DrawCommand)
    ensures
        views(cmds.push(c)) == views(cmds).push(c.view()),
{
    assert(views(cmds.push(c)) =~= views(cmds).push(c.view()));
}

/// The kind of an open scope.
pub enum Scope {
    Clip,
    Translate,
}

/// A transform, as far as drawing commands decide it.
pub enum Placement {
    /// The transform a surface had before the commands; distinct ones are
    /// told apart by the index.
    Given(int),
    /// A translation by a clip's origin plus its offset.
    ClipOrigin(Rectangle, Offset),
    /// A translation by a vector.
    Translation(Vector),
}

/// What drawing commands read and change of a surface besides its pixels.
pub struct SurfaceModel {
    pub clip_depth: nat,
    pub transform: Placement,
    pub saved: Seq<(Scope, Placement)>,
}

/// The effect of one command; none where it closes a scope that is not open.
pub open spec fn step(c: DrawCommand, s: SurfaceModel) -> Option<SurfaceModel> {
    match c {
        DrawCommand::PushClip { bounds, offset } => Some(
            SurfaceModel {
                clip_depth: s.clip_depth + 1,
                transform: Placement::ClipOrigin(bounds, offset),
                saved: s.saved.push((Scope::Clip, s.transform)),
            },
        ),
        DrawCommand::PopClip => if s.saved.len() > 0 && s.saved.last().0 is Clip && s.clip_depth > 0 {
            Some(
                SurfaceModel {
                    clip_depth: (s.clip_depth - 1) as nat,
                    transform: s.saved.last().1,
                    saved: s.saved.drop_last(),
                },
            )
        } else {
            None
        },
        DrawCommand::PushTranslate { translation } => Some(
            SurfaceModel {
                clip_depth: s.clip_depth,
                transform: Placement::Translation(translation),
                saved: s.saved.push((Scope::Translate, s.transform)),
            },
        ),
        DrawCommand::PopTranslate => if s.saved.len() > 0 && s.saved.last().0 is Translate {
            Some(SurfaceModel { clip_depth: s.clip_depth, transform: s.saved.last().1, saved: s.saved.drop_last() })
        } else {
            None
        },
        _ => Some(s),
    }
}

/// The effect of a sequence of commands, run in order.
pub open spec fn run(cmds: Seq<DrawCommand>, s: SurfaceModel) -> Option<SurfaceModel>
    decreases cmds.len(),
{
    if cmds.len() == 0 {
        Some(s)
    } else {
        match run(cmds.drop_last(), s) {
            Some(t) => step(cmds.last(), t),
            None => None,
        }
    }
}

/// Running `cmds` then `c` is running `c` on what `cmds` left.
pub proof fn lemma_run_push(cmds: Seq<DrawCommand>, c: DrawCommand, s: SurfaceModel)
    ensures
        run(cmds.push(c), s) == match run(cmds, s) {
            Some(t) => step(c, t),
            None => None,
        },
{
    assert(cmds.push(c).drop_last() == cmds);
}

} // verus!
