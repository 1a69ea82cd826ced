//! The commands of the interactive control client.

pub mod commands;
