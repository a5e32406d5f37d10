//! Control core of a lathe power-feed attachment.
//!
//! The crate turns operator inputs (a three-position direction switch, a
//! rapid-feed button, a speed dial and a limit switch) into a stepper drive
//! command and two lines of status text. Every function is verified against
//! the contract it carries.

pub mod app;
pub mod encoder;
pub mod panel;
pub mod pulse;
pub mod status;
