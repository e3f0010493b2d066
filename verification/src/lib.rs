//! Client-side core of the Wayland protocol: byte buffers, the wire codec,
//! the object registry, the request queue and the event dispatcher.
//!
//! Socket input and output are left to the caller; this crate only frames,
//! parses and keeps the books.
pub mod connection;
pub mod renderer;
pub mod types;
pub mod wire;
