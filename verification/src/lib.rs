//! Playback-queue state machine of a voice-channel music bot.
//!
//! The crate decides what plays next, how volume, skip and stop interact with
//! a track in flight, and how a session is set up and torn down. It performs
//! no I/O: every function maps plain values to plain values, and the caller
//! carries out the actions it is handed.

pub mod error;
pub mod volume;
pub mod track;
pub mod queue;
pub mod model;
pub mod music;
pub mod session;
pub mod text;
pub mod notice;
pub mod commands;
pub mod theorems;
