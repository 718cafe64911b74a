use iced_graphics::font::FALLBACK;
use iced_raqote::backend::Viewport;
use iced_raqote::command::DrawCommand;
use iced_raqote::font::FontRef;
use iced_raqote::primitive::{
    Background, Color, HorizontalAlignment, Offset, Primitive, Rectangle, TextFont,
    VerticalAlignment,
};
use iced_raqote::text::{GlyphBitmap, GlyphKey, GlyphPos};
use iced_raqote::{Backend, Settings, Vector};
use std::sync::Arc;

fn backend() -> Backend {
    Backend::new(&Settings { default_text_size: 20, output: None }, FALLBACK).unwrap()
}

fn rect(x: f32, y: f32, w: f32, h: f32) -> Rectangle {
    Rectangle { x: x.to_bits(), y: y.to_bits(), width: w.to_bits(), height: h.to_bits() }
}

fn color(r: f32, g: f32, b: f32, a: f32) -> Color {
    Color { r: r.to_bits(), g: g.to_bits(), b: b.to_bits(), a: a.to_bits() }
}

fn vector(x: f32, y: f32) -> Vector {
    Vector { x_bits: x.to_bits(), y_bits: y.to_bits() }
}

fn text(content: &str, font: TextFont) -> Primitive {
    Primitive::Text {
        content: content.to_string(),
        bounds: rect(0.0, 0.0, 100.0, 20.0),
        color: color(0.0, 0.0, 0.0, 1.0),
        size: 16.0f32.to_bits(),
        font,
        horizontal_alignment: HorizontalAlignment::Left,
        vertical_alignment: VerticalAlignment::Top,
    }
}

fn viewport() -> Viewport {
    Viewport { width: 10.0f32.to_bits(), height: 10.0f32.to_bits() }
}

fn glyph(c: char, x: f32) -> GlyphPos {
    GlyphPos { c, px: 16.0f32.to_bits(), x: x.to_bits(), y: 0.0f32.to_bits(), width: 7, height: 9 }
}

fn offset(x: u32, y: u32) -> Offset {
    Offset { x, y }
}

fn quad(border_width: f32) -> Primitive {
    Primitive::Quad {
        bounds: rect(0.0, 0.0, 10.0, 10.0),
        background: Background::Color(color(1.0, 1.0, 1.0, 1.0)),
        border_radius: 0.0f32.to_bits(),
        border_width: border_width.to_bits(),
        border_color: color(0.0, 0.0, 0.0, 1.0),
    }
}

#[test]
fn new_backend_keeps_the_default_size() {
    assert_eq!(backend().default_size(), 20);
    assert!(Backend::new(&Settings { default_text_size: 20, output: None }, &[1, 2, 3]).is_none());
}

#[test]
fn quad_yields_one_quad_command() {
    let mut b = backend();
    let cmds = b.draw(&quad(2.0), &vec![], viewport());
    assert_eq!(cmds.len(), 1);
    match &cmds[0] {
        DrawCommand::Quad { bounds, background, border_radius, border_width, border_color } => {
            assert_eq!(*bounds, rect(0.0, 0.0, 10.0, 10.0));
            assert_eq!(*background, Background::Color(color(1.0, 1.0, 1.0, 1.0)));
            assert_eq!(*border_radius, 0.0f32.to_bits());
            assert_eq!(*border_width, 2.0f32.to_bits());
            assert_eq!(*border_color, color(0.0, 0.0, 0.0, 1.0));
        }
        other => panic!("unexpected command {:?}", other),
    }
}

#[test]
fn stubs_yield_no_commands() {
    let mut b = backend();
    let tree = Primitive::Group {
        primitives: vec![
            Primitive::Image { bounds: rect(0.0, 0.0, 5.0, 5.0) },
            Primitive::Svg { bounds: rect(1.0, 1.0, 5.0, 5.0) },
            Primitive::Mesh2D { width: 3.0f32.to_bits(), height: 3.0f32.to_bits() },
        ],
    };
    assert!(b.draw(&tree, &vec![], viewport()).is_empty());
    assert!(b.draw(&Primitive::Blank, &vec![], viewport()).is_empty());
    let nested = Primitive::Group {
        primitives: vec![
            tree,
            Primitive::Group { primitives: vec![Primitive::Group { primitives: vec![] }] },
        ],
    };
    assert!(b.draw(&nested, &vec![], viewport()).is_empty());
}

#[test]
fn nested_clips_and_translations_are_balanced() {
    let mut b = backend();
    let tree = Primitive::Clip {
        bounds: rect(1.0, 1.0, 8.0, 8.0),
        offset: offset(0, 2),
        content: Box::new(Primitive::Translate {
            translation: vector(3.0, 4.0),
            content: Box::new(Primitive::Group {
                primitives: vec![
                    quad(0.0),
                    Primitive::Clip {
                        bounds: rect(0.0, 0.0, 2.0, 2.0),
                        offset: offset(0, 0),
                        content: Box::new(quad(1.0)),
                    },
                ],
            }),
        }),
    };
    let cmds = b.draw(&tree, &vec![], viewport());
    let shape: Vec<&str> = cmds
        .iter()
        .map(|c| match c {
            DrawCommand::PushClip { .. } => "push-clip",
            DrawCommand::PopClip => "pop-clip",
            DrawCommand::PushTranslate { .. } => "push-translate",
            DrawCommand::PopTranslate => "pop-translate",
            DrawCommand::Quad { .. } => "quad",
            DrawCommand::Text(_) => "text",
        })
        .collect();
    assert_eq!(
        shape,
        vec![
            "push-clip",
            "push-translate",
            "quad",
            "push-clip",
            "quad",
            "pop-clip",
            "pop-translate",
            "pop-clip"
        ]
    );
    match &cmds[0] {
        DrawCommand::PushClip { bounds, offset: o } => {
            assert_eq!(*bounds, rect(1.0, 1.0, 8.0, 8.0));
            assert_eq!(*o, offset(0, 2));
        }
        other => panic!("unexpected command {:?}", other),
    }
}

#[test]
fn shared_subtree_draws_as_inline() {
    let mut b = backend();
    let shared = Arc::new(quad(3.0));
    let tree = Primitive::Group {
        primitives: vec![Primitive::Cached { cache: shared.clone() }, Primitive::Cached { cache: shared }],
    };
    let cmds = b.draw(&tree, &vec![], viewport());
    assert_eq!(cmds.len(), 2);
    for c in &cmds {
        assert!(matches!(c, DrawCommand::Quad { border_width, .. } if *border_width == 3.0f32.to_bits()));
    }
}

#[test]
fn measured_text_is_drawn_from_the_cache() {
    let mut b = backend();
    let glyphs = vec![glyph('h', 0.0), glyph('i', 8.0)];
    b.store_layout(&"hi".to_string(), 16.0f32.to_bits(), &TextFont::Default, glyphs.clone());
    for _ in 0..3 {
        let cmds = b.draw(&text("hi", TextFont::Default), &vec![], viewport());
        assert_eq!(cmds.len(), 1);
        match &cmds[0] {
            DrawCommand::Text(run) => {
                assert_eq!(run.content, "hi");
                assert_eq!(run.font, FontRef::Fallback);
                assert_eq!(run.glyphs, Some(glyphs.clone()));
            }
            other => panic!("unexpected command {:?}", other),
        }
    }
}

#[test]
fn unmeasured_text_is_shaped_in_place() {
    let mut b = backend();
    b.store_layout(&"hi".to_string(), 12.0f32.to_bits(), &TextFont::Default, vec![glyph('h', 0.0)]);
    let cmds = b.draw(&text("hi", TextFont::Default), &vec![], viewport());
    match &cmds[0] {
        DrawCommand::Text(run) => assert_eq!(run.glyphs, None),
        other => panic!("unexpected command {:?}", other),
    }
}

#[test]
fn last_measurement_wins() {
    let mut b = backend();
    let size = 16.0f32.to_bits();
    b.store_layout(&"hi".to_string(), size, &TextFont::Default, vec![glyph('h', 0.0)]);
    b.store_layout(&"hi".to_string(), size, &TextFont::Default, vec![glyph('h', 1.0), glyph('i', 9.0)]);
    let cmds = b.draw(&text("hi", TextFont::Default), &vec![], viewport());
    match &cmds[0] {
        DrawCommand::Text(run) => assert_eq!(run.glyphs, Some(vec![glyph('h', 1.0), glyph('i', 9.0)])),
        other => panic!("unexpected command {:?}", other),
    }
}

#[test]
fn overlay_text_is_drawn_last_in_white() {
    let mut b = backend();
    let cmds = b.draw(&quad(0.0), &vec!["fps: 60".to_string()], viewport());
    assert_eq!(cmds.len(), 2);
    assert!(matches!(cmds[0], DrawCommand::Quad { .. }));
    match &cmds[1] {
        DrawCommand::Text(run) => {
            assert_eq!(run.content, "fps: 60");
            assert_eq!(run.bounds, rect(0.0, 0.0, 10.0, 10.0));
            assert_eq!(run.color, color(1.0, 1.0, 1.0, 1.0));
            assert_eq!(run.size, 14.0f32.to_bits());
            assert_eq!(run.font, FontRef::Fallback);
            assert_eq!(run.horizontal_alignment, HorizontalAlignment::Left);
            assert_eq!(run.vertical_alignment, VerticalAlignment::Top);
        }
        other => panic!("unexpected command {:?}", other),
    }
}

#[test]
fn fonts_load_once_and_fall_back_with_a_warning() {
    let mut b = backend();
    let lato = TextFont::External { name: "lato".to_string(), bytes: FALLBACK.to_vec() };
    let broken = TextFont::External { name: "broken".to_string(), bytes: vec![0, 1, 2, 3] };
    assert_eq!(b.resolve_font(&TextFont::Default), FontRef::Fallback);
    assert_eq!(b.resolve_font(&lato), FontRef::Loaded(0));
    assert_eq!(b.resolve_font(&lato), FontRef::Loaded(0));
    assert!(b.take_warnings().is_empty());
    assert_eq!(b.resolve_font(&broken), FontRef::Fallback);
    let warnings = b.take_warnings();
    assert_eq!(warnings.len(), 1);
    assert_eq!(warnings[0].name, "broken");
    assert!(!warnings[0].error.is_empty());
    assert!(b.take_warnings().is_empty());
    assert_eq!(b.resolve_font(&broken), FontRef::Fallback);
    assert_eq!(b.take_warnings().len(), 1);
    assert!(b.face(FontRef::Loaded(0)).is_some());
    assert!(b.face(FontRef::Loaded(1)).is_none());
    assert!(b.face(FontRef::Fallback).is_some());
}

#[test]
fn glyph_bitmaps_are_cached_once() {
    let mut b = backend();
    let key = GlyphKey { font: FontRef::Fallback, c: 'a', px: 16.0f32.to_bits() };
    let other = GlyphKey { font: FontRef::Loaded(0), c: 'a', px: 16.0f32.to_bits() };
    assert!(b.glyph(key).is_none());
    b.store_glyph(key, GlyphBitmap { width: 1, height: 2, coverage: vec![10, 20] });
    b.store_glyph(key, GlyphBitmap { width: 1, height: 1, coverage: vec![99] });
    let got = b.glyph(key).unwrap();
    assert_eq!((got.width, got.height, got.coverage.clone()), (1, 2, vec![10, 20]));
    assert!(b.glyph(other).is_none());
}

#[test]
fn cached_glyph_rasterizes_once() {
    let mut b = backend();
    let key = GlyphKey { font: FontRef::Fallback, c: 'x', px: 16.0f32.to_bits() };
    let first = b.cached_glyph(key, |face: &fontdue::Font| {
        let (m, coverage) = face.rasterize('x', 16.0);
        GlyphBitmap { width: m.width, height: m.height, coverage }
    });
    assert!(first.width > 0 && first.coverage.len() == first.width * first.height);
    let second = b.cached_glyph(key, |_: &fontdue::Font| GlyphBitmap { width: 0, height: 0, coverage: vec![] });
    assert_eq!((second.width, second.height, second.coverage), (first.width, first.height, first.coverage));
}
