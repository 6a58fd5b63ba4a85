//! The decisions of a desktop front end for a Game Boy emulator.
//!
//! Windows, channels, threads, the sound card and the emulated machine itself live outside
//! this crate. What is here decides: which key does what, when the emulated processor runs
//! and when it waits, what is drawn where, which audio configuration is taken, and what the
//! audio buffer holds. Every public function carries a contract that is proved.
#![allow(unused_imports)]

pub mod audio;
pub mod cpu;
pub mod input;
pub mod keypad;
pub mod pacing;
pub mod scale;
pub mod screen;
pub mod startup;
pub mod timer;
pub mod window;
