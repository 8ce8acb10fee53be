//! Verified core of a tool that reverses mouse-wheel and trackpad scrolling
//! independently on macOS.
pub mod text;
pub mod config;
pub mod paths;
pub mod service;
pub mod cli;
pub mod event_tap;
pub mod session;
