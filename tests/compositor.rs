use iced_graphics::font::FALLBACK;
use iced_raqote::compositor::{clear_frame, frame_pixels, FrameError, SurfaceHandle};
use iced_raqote::primitive::Primitive;
use iced_raqote::{Backend, Compositor, Settings};

fn settings() -> Settings {
    Settings { default_text_size: 20, output: None }
}

#[test]
fn surfaces_get_increasing_handles() {
    let mut c = Compositor::request(settings()).unwrap();
    let a = c.create_surface();
    let b = c.create_surface();
    assert_eq!(a.handle, SurfaceHandle(0));
    assert_eq!(b.handle, SurfaceHandle(1));
    assert_eq!(c.output(), &None);
}

#[test]
fn swap_chain_is_replaced_on_resize() {
    let mut c = Compositor::request(settings()).unwrap();
    let s = c.create_surface();
    let first = c.create_swap_chain(&s, 10, 20);
    let second = c.create_swap_chain(&s, 30, 40);
    assert_eq!((first.width, first.height), (10, 20));
    assert_eq!((second.surface, second.width, second.height), (s.handle, 30, 40));
}

#[test]
fn degenerate_frames_are_unavailable() {
    let mut c = Compositor::request(settings()).unwrap();
    let s = c.create_surface();
    assert_eq!(c.create_swap_chain(&s, 0, 5).get_current_frame().err(), Some(FrameError::Unavailable));
    assert_eq!(c.create_swap_chain(&s, 5, 0).get_current_frame().err(), Some(FrameError::Unavailable));
    assert_eq!(
        c.create_swap_chain(&s, 70_000, 70_000).get_current_frame().err(),
        Some(FrameError::TooLarge)
    );
}

#[test]
fn fresh_frame_is_transparent_and_clears_to_a_colour() {
    let mut c = Compositor::request(settings()).unwrap();
    let s = c.create_surface();
    let mut frame = c.create_swap_chain(&s, 10, 10).get_current_frame().unwrap();
    assert_eq!(frame_pixels(&frame), vec![0u32; 100]);
    clear_frame(&mut frame, (255, 0, 0, 0));
    assert_eq!(frame_pixels(&frame), vec![0xff00_0000u32; 100]);
    clear_frame(&mut frame, (255, 255, 255, 255));
    assert_eq!(frame_pixels(&frame), vec![0xffff_ffffu32; 100]);
    clear_frame(&mut frame, (128, 255, 0, 0));
    assert_eq!(frame_pixels(&frame)[0], 0x8080_0000);
}

#[test]
fn stub_tree_leaves_the_cleared_frame() {
    let (mut c, mut b): (Compositor, Backend) = Compositor::new(settings(), FALLBACK).unwrap();
    let s = c.create_surface();
    let mut frame = c.create_swap_chain(&s, 4, 4).get_current_frame().unwrap();
    clear_frame(&mut frame, (255, 0, 0, 255));
    let tree = Primitive::Group {
        primitives: vec![Primitive::Image { bounds: iced_raqote::primitive::Rectangle { x: 0, y: 0, width: 0, height: 0 } }],
    };
    let viewport = iced_raqote::Viewport { width: 4.0f32.to_bits(), height: 4.0f32.to_bits() };
    assert!(b.draw(&tree, &vec![], viewport).is_empty());
    assert_eq!(frame_pixels(&frame), vec![0xff00_00ffu32; 16]);
}

#[test]
fn compositor_renderer_has_the_settings_text_size() {
    let c = Compositor::request(Settings { default_text_size: 17, output: Some("out.png".to_string()) }).unwrap();
    assert_eq!(c.create_backend(FALLBACK).unwrap().default_size(), 17);
    assert_eq!(c.output(), &Some("out.png".to_string()));
    assert!(Compositor::new(settings(), &[0u8, 1]).is_none());
}
