//! A software renderer for a tree of drawing primitives, with text layout
//! and glyph caches, a compositor of presentation surfaces, and the cursor
//! bookkeeping of a text input.

pub mod animation;
pub mod backend;
mod clock;
pub mod command;
pub mod compositor;
pub mod cursor;
pub mod font;
pub mod frame;
pub mod hit_test;
pub mod primitive;
pub mod text;
pub mod value;

pub use animation::{AnimationState, Moment};
pub use backend::{Backend, Settings, Viewport};
pub use compositor::{Compositor, Surface, SwapChain};
pub use cursor::{Cursor, State};
pub use hit_test::{HitTestResult, Vector};
