//! A full-screen colour field, dithered with a Bayer matrix, and the
//! renderer that keeps it in step with its window.
//!
//! The crate decides and describes; it touches no GPU. `dither` and
//! `texture` synthesize the dither texture. `context`, `resources` and
//! `pipeline` describe what is created at startup. `graphics` holds the
//! renderer's state and turns resizes and redraws into lists of `command`s,
//! which `surface` specifies and `device` gives a meaning to, so that every
//! list is known to be free of hazards before it is carried out. `event`
//! and `window` describe the window's side, and `audio` the position of the
//! playback in the music.

pub mod audio;
pub mod command;
pub mod context;
pub mod device;
pub mod dither;
pub mod event;
pub mod graphics;
pub mod pipeline;
pub mod resources;
pub mod surface;
pub mod texture;
pub mod window;
