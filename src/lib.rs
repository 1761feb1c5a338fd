//! Measures how long a shell takes to run a script, net of the cost of starting it.
//!
//! The verified library interprets the command line, builds the synthetic
//! benchmark script and drives the trial loop as a state machine; the program
//! around it spawns the shell and reads the clock.

pub mod bench;
pub mod clock;
pub mod script;
pub mod switches;
pub mod text;
