//! A builder-pattern session over an X11 display, kept free of native calls.
//!
//! The builder records every Xlib operation it decides on as a [`Request`];
//! a driver outside this crate performs the requests in order against the
//! display connection, the window, the colormap and the graphics context
//! that it owns.

pub mod visualinfo;
mod native;
pub mod window;
pub mod draw;
pub mod display;
pub mod attributes;
pub mod error;
pub mod color;
pub mod request;
pub mod session;
pub mod builder;
pub mod xstr;
pub mod laws;

pub use builder::{Refused, XBuilder};
pub use error::XError;
pub use request::Request;
