//! Rock-paper-scissors: the outcome rule for the three choices and the
//! state machine that drives a round of the game, with the texts, image
//! assets and style classes that each step puts on screen.

pub mod choice;
pub mod display;
pub mod game;
