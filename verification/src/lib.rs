//! Animated terminal "pipes": the simulation core.
//!
//! Pipes move across a toroidal character grid, one cell per tick,
//! occasionally turning by 90 degrees, and every cell they pass through is
//! drawn with the box-drawing glyph that connects the incoming and the
//! outgoing side. This crate holds the direction model, the wrapping
//! coordinate arithmetic, the connector-glyph table and the per-tick pipe
//! state machine; drawing and input stay with the surrounding application.

pub mod direction;
pub mod parser;
pub mod pipe;
pub mod rng;
pub mod wrap;

pub use direction::Direction;
pub use parser::DEFAULT_MAP;
pub use parser::parse_map;
pub use pipe::Pipe;
pub use pipe::Turn;
pub use pipe::pipe_connecting;
pub use wrap::wrap_add;
pub use wrap::wrap_sub;
