//! Version selection and installation planning for the Quilt installer.
//!
//! Every decision the installer takes is a verified function on plain values;
//! the program around this library performs the network and file operations.

pub mod batch;
pub mod catalog;
pub mod checksum;
pub mod cli;
pub mod client;
pub mod fetch;
pub mod gui;
pub mod install;
pub mod installer;
pub mod maven;
pub mod profile;
pub mod select;
pub mod server;
pub mod version;
