//! Rendering and user-interface core of a small 2D engine: batched quad
//! submission, layout resolution, a UI node tree and immediate-mode widgets.
pub mod math;
pub mod layout;
pub mod batch;
pub mod renderer;
pub mod ui_renderer;
pub mod interaction;
pub mod ui;
pub mod buffer;
pub mod texture;
