//! What the screen shows, as lines of text. Printing them is left to the program
//! around the library.

pub mod game;
pub mod inputs;
