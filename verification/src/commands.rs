//! What the commands of the program compute, apart from what they read and write.

pub mod deploy;
pub mod diff;
