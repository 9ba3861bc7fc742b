//! The Lovelock companion library: provider setup, vibration actions, trigger
//! routing, log capture, saved state, and the OpenShock and PiShock protocol
//! logic.
pub mod action;
pub mod provider;
pub mod providers;
pub mod text;
pub mod json;
pub mod logging;
pub mod app;
pub mod pishock;
pub mod openshock;
pub mod persistence;
pub mod theme;
