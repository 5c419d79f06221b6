//! A Morse code typing drill: the encoder that turns a phrase into the
//! expected sequence of dots and dashes, and the session state machine
//! that turns timed key presses into symbols, letters and words.

pub mod alphabet;
pub mod session;
