//! The settings of the program and those that entries of the state tree carry.

pub mod bois;
pub mod directory;
pub mod file;
