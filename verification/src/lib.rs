//! State of a 3x3x3 twisty cube: which piece sits in which of the 26 slots,
//! and how a quarter turn of a face permutes them.

pub mod create;
pub mod entity;
pub mod face;
pub mod interaction;
pub mod location;
pub mod settings;
pub mod table;
pub mod turn;
pub mod vector;
