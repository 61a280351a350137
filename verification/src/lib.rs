//! Navigation and animation core of the Etoalium showcase site.
//!
//! The crate maps URL paths to pages, keeps the page state, owns the
//! lifetime of an animation's drawing context, and computes each animation
//! frame as an exact list of drawing commands from a timestamp.

pub mod animation;
pub mod draw;
pub mod ratio;
pub mod route;
pub mod state;
mod text;
pub mod theme;
pub mod time;
pub mod works;
