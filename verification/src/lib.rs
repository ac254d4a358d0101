//! The help screen of a 2D game, as a pure component.
//!
//! The screen owns three kinds of entity in the host's scene graph: one
//! camera, one background sprite and seven text labels. Entering the screen
//! creates them, leaving it removes them, and while it is shown the exit key
//! asks the host to go back to the start menu. The functions here decide what
//! is to be created and removed; the host carries the decisions out.

pub mod command;
pub mod effect;
pub mod input;
pub mod laws;
pub mod layout;
pub mod scene;
pub mod screen;
pub mod seq_facts;
pub mod tag;
