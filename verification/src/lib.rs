//! The render loop of a small interactive graphics demo, as a state machine.
//!
//! The demo opens one window, clears it to a background colour on every
//! frame, draws a fixed pentagon and picks a new random background whenever
//! the left mouse button is pressed. This crate holds every decision of that
//! loop: the shell around it only talks to the operating system and the GPU,
//! reports what happened as an [`event::Event`] and carries out the
//! [`window::Action`] it is handed back.

pub mod color;
pub mod event;
pub mod mesh;
pub mod render;
pub mod surface;
pub mod window;
