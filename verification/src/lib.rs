//! The core of a windowed frontend for [lifers] automata.
//!
//! A frontend shows the grid of an automaton as squares centred in a window
//! and computes a new generation whenever its timer finishes a cycle. This
//! crate holds what such a frontend decides:
//!
//! - [`timer`]: a repeating timer that can be paused and set to another
//!   period;
//! - [`geometry`]: the side of the cells and the place of the grid in the
//!   window, exactly;
//! - [`render`]: the frame to draw for a dense or a sparse grid;
//! - [`input`]: the fixed key bindings;
//! - [`generic`] and [`life_like`]: the frontends, which hold an automaton
//!   together with its timer and geometry;
//! - [`engine`]: what a frontend asks of the automaton engine.
//!
//! Opening a window, polling the keyboard, drawing and computing a
//! generation are left to the caller: it hands a key or the colours of the
//! cells in, draws the frame that it gets back, and asks the automaton for
//! a generation when the frontend says that one is due. Spans of time are
//! whole nanoseconds, lengths are whole units of a geometry; floating point
//! is not used.
//!
//! Every function is verified against the contract it states. The clock and
//! the automaton engine are taken on trust; the items that do so say it.

pub mod engine;
pub mod generic;
pub mod geometry;
pub mod input;
pub mod life_like;
pub mod render;
pub mod timer;
