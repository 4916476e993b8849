//! A headless window adapter for a browser-engine embedder.
//!
//! The adapter satisfies the window contracts an embedder's compositing
//! pipeline expects without any on-screen display: it keeps a cached
//! device-pixel inner size, fixed construction-time screen geometry, a
//! fullscreen and an animation flag, and an outbound event queue, and it
//! negotiates resize requests against a rendering surface that refuses
//! degenerate sizes.
//!
//! The rendering surface itself is managed by an outside surface library;
//! the shell around this crate performs those calls and hands their
//! outcomes back to the verified core (see [`window::Window::request_inner_size`]
//! and [`window::Window::complete_resize`]).

pub mod geometry;
pub mod window;

pub use geometry::{
    DevicePoint, DeviceRect, DeviceSize, LogicalPoint, LogicalRect, LogicalSize, PixelRatio,
    Rotation, Vector3,
};
pub use window::{AnimationState, EmbedderCoordinates, EmbedderEvent, ResizeAction, Window};
