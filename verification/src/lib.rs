//! Verified core of the Local TCP native-messaging host installer.
pub mod cli;
pub mod host;
pub mod install;
pub mod json;
pub mod nodes;
pub mod paths;
pub mod platform;
pub mod provision;
pub mod registry;
pub mod report;
pub mod text;
pub mod uninstall;
