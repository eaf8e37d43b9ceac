//! A rules engine for the board game Tak.
//!
//! The engine tracks the board state of a game in progress, decides whether a
//! proposed turn is legal, and applies legal turns to produce the next state.
//! It covers placement, stack movement with split drops, the standing-stone
//! wall rule and capstone flattening, per-player stone reserves, and strict
//! turn alternation. Win detection, notation and presentation are left to the
//! caller.

pub mod pieces;

pub mod geometry;

pub mod turn;

pub mod counting;

pub mod board;

pub mod game;

pub mod laws;

pub mod render;
