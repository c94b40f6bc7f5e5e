//! Decision logic of a Wayland screen-sharing diagnostic for KDE Plasma on
//! NVIDIA: the parsers and rules that turn probe output into check results.

pub mod text;
pub mod types;
pub mod kwin;
pub mod wayland;
pub mod nvidia;
pub mod session;
pub mod cli;
pub mod commands;
pub mod dbus;
pub mod pipewire;
pub mod env;
pub mod flatpak;
pub mod redact;
pub mod laws;
pub mod audit_laws;
