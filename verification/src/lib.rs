//! Views of a windowed application, and the attribute that keeps deeply recursive functions
//! from running out of stack.
//!
//! - [`entity`]: handles to the entities that hold the state of views.
//! - [`view`]: dynamically typed handles to views, strong and weak.
//! - [`host`]: the types that the window system around the views brings along.
//! - [`cache`]: what is kept of a cached view from one frame to the next, and when it may be
//!   used again.
//! - [`layout`], [`prepaint`], [`paint`]: the three passes of a frame over a view. Each pass is
//!   a machine that says what the window has to do next and is told what came of it.
//! - [`passes`]: what each pass asks for, in which order, whatever the window is.
//! - [`window`]: a window as far as a pass can tell, and what it does for a pass.
//! - [`frame`]: what a pass has done to a window once it has run to its end, and what that
//!   means for a frame and for the next one.
//! - [`tokens`]: streams of Rust tokens.
//! - [`stacksafe`]: what the attribute `#[stacksafe]` makes of a function.

pub mod cache;
pub mod entity;
pub mod frame;
pub mod host;
pub mod layout;
pub mod paint;
pub mod passes;
pub mod prepaint;
pub mod stacksafe;
pub mod tokens;
pub mod view;
pub mod window;
