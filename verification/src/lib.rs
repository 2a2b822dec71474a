//! Update checking and self-installation logic of the EasyTier desktop manager.

pub mod text;
pub mod version;
pub mod release;
pub mod paths;
pub mod install;
pub mod installer;
pub mod download;
pub mod commands;
