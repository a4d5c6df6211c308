//! Verified core of a terminal user-interface engine.
//!
//! The library owns the declarative element tree, the constraint-based
//! layout engine, style resolution, translation of raw key input into the
//! host's abstract event vocabulary, and the event-loop state machine.
//! Terminal I/O itself (raw mode, the screen buffer, reading input) is left
//! to an unverified front end that consumes the draw operations this
//! library produces.

pub mod element;
pub mod event_loop;
pub mod geometry;
pub mod input;
pub mod layout;
pub mod render;
pub mod style;
