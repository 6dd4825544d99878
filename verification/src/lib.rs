//! Coordination core of a terminal video browser: the state machine that
//! reacts to keys and worker messages, the thumbnail cache protocol, the
//! image-to-cell fitter and the guard that avoids redrawing an unchanged
//! thumbnail. Everything here works on plain values; the terminal, the
//! network and the file system are driven by the caller.

pub mod fit;
pub mod text;
pub mod video;
pub mod count;
pub mod cache;
pub mod render;
pub mod state;
pub mod app;
pub mod laws;
