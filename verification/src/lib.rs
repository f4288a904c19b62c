//! Replacing effect definitions in the memory of a running game.
//!
//! The game has no symbols, and its addresses change with every build. So
//! the library finds what it needs by the shape of the code: a pattern of
//! fixed and open bits is slid over the code of the game, and the
//! displacements that the matching instructions carry lead to the functions
//! and the data. With these it builds a table of the singletons of the game,
//! looks up the effects manager, walks its list of definitions, and swaps
//! the definition with the identifier of the payload for the payload.
//!
//! The library does not touch the process. It decides what is to be read,
//! called and written, and its host does it.

pub mod detection;
pub mod eldenring;
pub mod frontend;
pub mod fxr;
pub mod game;
pub mod idioms;
pub mod language;
pub mod pattern;
pub mod protocol;
pub mod resolver;
pub mod scanner;
pub mod section;
pub mod singleton;
pub mod table;
pub mod target;
pub mod traversal;
pub mod util;
