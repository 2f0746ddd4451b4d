//! The simulation core of a snake game on a fixed square board: how the snake
//! moves and grows, where food may be placed, and how a tick of the game
//! detects eating and crashes, scores, and starts over.
//!
//! Nothing here draws, plays sound, reads the keyboard or the clock, or draws
//! random numbers. The caller hands in key presses, timestamps and candidate
//! cells for the food, and gets back the state to draw and the sounds to play.

pub mod config;
pub mod grid;
pub mod snake;

pub mod food;
pub mod game;
