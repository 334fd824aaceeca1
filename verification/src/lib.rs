//! A verified emulator core for the LC-3, a 16-bit teaching architecture with
//! a flat 65536-word address space, eight general-purpose registers, a program
//! counter and a three-way condition register.
//!
//! The crate holds the fetch-decode-execute engine only. Reading an image
//! from disk and talking to a terminal are the host's business: the host
//! hands the engine an image as bytes, and exchanges console traffic with it
//! through the buffers of a [`defs::console::Console`].

pub mod decode;
pub mod defs;
pub mod operations;
pub mod program_loader;
