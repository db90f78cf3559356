//! The exact-text core of a small ray tracer: 8-bit colors with their
//! hexadecimal form, and the plain-text pixel image format, assembled
//! character by character under contracts that pin the output down.

pub mod color;
pub mod ppm;
pub mod text;
