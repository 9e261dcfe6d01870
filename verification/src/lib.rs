//! Frame rules of a small top-down chase game: a player sprite steered from the
//! keyboard and a horde of agents that walk towards it.
//!
//! The crate holds the discrete decisions of a frame, each with a proved
//! contract: which way the pressed keys point, which way a sprite faces, whether
//! it bobs or rests, and which texture an agent is given. The host program owns
//! the engine, the clock and all arithmetic on real-valued quantities; it hands
//! the crate key states and comparison results and applies what comes back.

pub mod input;
pub mod motion;
pub mod schedule;
pub mod spawn;
