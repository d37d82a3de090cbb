//! Session controller of a desktop shell that wraps a remote web application:
//! address validation, liveness probing, stored settings and the window's
//! visibility state machine. Every decision is a verified function that hands
//! back the commands the presentation layer should carry out.
pub mod text;
pub mod address;
pub mod probe;
pub mod config;
pub mod session;
pub mod laws;
