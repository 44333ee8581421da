//! The logic of a small first-person scene viewer, kept apart from the window,
//! the graphics driver and the file system so that it can be proved.
//!
//! Every item here works on plain values. The program around it polls the
//! window, reads files, talks to the driver, and hands this crate what it saw.
//!
//! - [`binary32`]: single-precision numbers by their bit patterns, and their
//!   order.
//! - [`input`]: the player's standing requests, with the pitch kept between
//!   -89 and 89 degrees.
//! - [`event`]: what each report from the window does to the input.
//! - [`frame`]: how many simulation steps a frame runs, what moves in each,
//!   and when the run ends.
//! - [`layout`]: where the attributes of a vertex lie in a vertex buffer.
//! - [`shader`]: what to print when the driver fails to compile or link.
//! - [`texture`]: what the driver gets of a decoded picture.

pub mod binary32;
pub mod event;
pub mod frame;
pub mod input;
pub mod layout;
pub mod shader;
pub mod texture;
